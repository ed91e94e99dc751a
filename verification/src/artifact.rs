//! Documents kept as artifacts and edited by model turns.
pub mod types;
pub mod patch;
pub mod store;
pub mod task;
pub mod manager;
pub mod run;
pub mod output;
