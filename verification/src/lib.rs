use vstd::prelude::*;

pub mod text;
pub mod json;
pub mod errors;
pub mod api_types;
pub mod rpc_contract;
pub mod events;
pub mod turn_output;
pub mod wire;
pub mod approvals;
pub mod hooks;
pub mod client;
pub mod config;
pub mod rpc;
pub mod prompt;
pub mod digest;
pub mod artifact;
pub mod schema;
pub mod profile;
pub mod dispatch;
pub mod thread_items;
pub mod session;

verus! {
} // verus!
