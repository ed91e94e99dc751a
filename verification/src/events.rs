//! Observed protocol traffic: one envelope per JSON-RPC message.
use vstd::prelude::*;
use crate::json::JsonValue;

verus! {

/// A JSON-RPC request id.
#[derive(Clone, Debug, PartialEq, Eq, Hash)]
pub enum JsonRpcId {
    Number(u64),
    Text(String),
}

/// Which way a message travelled.
#[derive(Clone, Copy, Debug, PartialEq, Eq, Structural)]
pub enum Direction {
    Inbound,
    Outbound,
}

/// What kind of JSON-RPC message it is.
#[derive(Clone, Copy, Debug, PartialEq, Eq, Structural)]
pub enum MsgKind {
    Response,
    ServerRequest,
    Notification,
    Unknown,
}

/// One message with the identifiers found in it.
#[derive(Debug)]
pub struct Envelope {
    pub seq: u64,
    pub ts_millis: i64,
    pub direction: Direction,
    pub kind: MsgKind,
    pub rpc_id: Option<JsonRpcId>,
    pub method: Option<String>,
    pub thread_id: Option<String>,
    pub turn_id: Option<String>,
    pub item_id: Option<String>,
    pub json: JsonValue,
}

} // verus!
