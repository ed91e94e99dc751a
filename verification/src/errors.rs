//! Error types of the runtime, the RPC layer and prompt runs.
use vstd::prelude::*;
use crate::json::JsonValue;

verus! {

/// A JSON-RPC error object returned by the server.
#[derive(Debug)]
pub struct RpcErrorObject {
    pub code: i64,
    pub message: String,
    pub data: Option<JsonValue>,
}

/// Failure of one JSON-RPC call.
#[derive(Debug)]
pub enum RpcError {
    InvalidRequest(String),
    MethodNotFound(String),
    Overloaded,
    ServerError(RpcErrorObject),
    Timeout,
    TransportClosed,
}

/// Failure of the runtime itself.
#[derive(Debug, PartialEq, Eq)]
pub enum RuntimeError {
    Timeout,
    TransportClosed,
    NotInitialized,
    ServerRequestReceiverTaken,
    InvalidConfig(String),
    Internal(String),
}

/// How a turn ended when it ended without usable output.
#[derive(Clone, Copy, Debug, PartialEq, Eq, Structural)]
pub enum PromptTurnTerminalState {
    Failed,
    CompletedWithoutAssistantText,
}

/// Context of a turn that ended without usable output.
#[derive(Debug, PartialEq, Eq)]
pub struct PromptTurnFailure {
    pub terminal_state: PromptTurnTerminalState,
    pub source_method: String,
    pub code: Option<i64>,
    pub message: String,
}

/// Failure of one prompt run. `Timeout` carries the run timeout in
/// milliseconds.
#[derive(Debug)]
pub enum PromptRunError {
    Rpc(RpcError),
    Runtime(RuntimeError),
    Timeout(u64),
    TurnFailed,
    TurnFailedWithContext(PromptTurnFailure),
    TurnInterrupted,
    EmptyAssistantText,
    TurnCompletedWithoutAssistantText(PromptTurnFailure),
    AttachmentNotFound(String),
}

/// `RpcError::InvalidRequest` with the given text.
pub open spec fn is_invalid_request_with(e: RpcError, msg: Seq<char>) -> bool {
    e matches RpcError::InvalidRequest(m) && m@ == msg
}

} // verus!
