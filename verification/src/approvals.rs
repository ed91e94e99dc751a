//! Requests the server sends to the client (approvals, user input, tool
//! calls, auth refresh): how they are routed, what answers are accepted,
//! and how an unanswered request is answered when it times out.
use vstd::prelude::*;
use crate::errors::RuntimeError;
use crate::events::JsonRpcId;
use crate::json::{push_member, push_str_member, spec_get, str_member, JsonNumber, JsonValue};
use crate::text::{owned, push_str, str_eq, u64_to_decimal, decimal};

verus! {

/// A request from the server awaiting an answer.
#[derive(Debug)]
pub struct ServerRequest {
    pub approval_id: String,
    pub method: String,
    pub params: JsonValue,
}

/// A queued server request and when it expires.
#[derive(Debug)]
pub struct PendingServerRequest {
    pub approval_id: String,
    pub deadline_unix_ms: i64,
    pub method: String,
    pub params: JsonValue,
}

/// How an unanswered request is answered when its time runs out.
#[derive(Clone, Copy, Debug, PartialEq, Eq, Structural)]
pub enum TimeoutAction {
    Decline,
    Cancel,
    Error,
}

/// Handling of server requests.
#[derive(Clone, Debug, PartialEq, Eq)]
pub struct ServerRequestConfig {
    pub default_timeout_ms: u64,
    pub on_timeout: TimeoutAction,
    pub auto_decline_unknown: bool,
}

impl Default for ServerRequestConfig {
    /// A 30 s timeout, declining on timeout, unknown methods declined.
    fn default() -> (c: Self)
        ensures
            c.default_timeout_ms == 30_000,
            c.on_timeout == TimeoutAction::Decline,
            c.auto_decline_unknown,
    {
        ServerRequestConfig { default_timeout_ms: 30_000, on_timeout: TimeoutAction::Decline, auto_decline_unknown: true }
    }
}

/// Where a server request goes.
#[derive(Clone, Copy, Debug, PartialEq, Eq, Structural)]
pub enum ServerRequestRoute {
    Queue,
    AutoDecline,
}

/// Methods the client knows how to answer.
pub open spec fn spec_is_known_server_request(m: Seq<char>) -> bool {
    ||| m == "item/commandExecution/requestApproval"@
    ||| m == "item/fileChange/requestApproval"@
    ||| m == "item/tool/requestUserInput"@
    ||| m == "item/tool/call"@
    ||| m == "account/chatgptAuthTokens/refresh"@
}

/// Methods of an older protocol, always declined.
pub open spec fn spec_is_legacy_server_request(m: Seq<char>) -> bool {
    m == "applyPatchApproval"@ || m == "execCommandApproval"@
}

/// Route of a request: legacy methods are declined; unknown methods are
/// declined when `auto_decline_unknown` is set; the rest are queued.
pub open spec fn spec_route(m: Seq<char>, auto_decline_unknown: bool) -> ServerRequestRoute {
    if spec_is_legacy_server_request(m) {
        ServerRequestRoute::AutoDecline
    } else if auto_decline_unknown && !spec_is_known_server_request(m) {
        ServerRequestRoute::AutoDecline
    } else {
        ServerRequestRoute::Queue
    }
}

/// True for a method the client knows how to answer.
pub fn is_known_server_request_method(method: &str) -> (r: bool)
    ensures
        r == spec_is_known_server_request(method@),
{
    str_eq(method, "item/commandExecution/requestApproval")
        || str_eq(method, "item/fileChange/requestApproval")
        || str_eq(method, "item/tool/requestUserInput")
        || str_eq(method, "item/tool/call")
        || str_eq(method, "account/chatgptAuthTokens/refresh")
}

/// True for a method of the older protocol.
pub fn is_legacy_server_request_method(method: &str) -> (r: bool)
    ensures
        r == spec_is_legacy_server_request(method@),
{
    str_eq(method, "applyPatchApproval") || str_eq(method, "execCommandApproval")
}

/// Where a server request goes (see `spec_route`).
pub fn route_server_request(method: &str, auto_decline_unknown: bool) -> (r: ServerRequestRoute)
    ensures
        r == spec_route(method@, auto_decline_unknown),
{
    if is_legacy_server_request_method(method) {
        return ServerRequestRoute::AutoDecline;
    }
    if auto_decline_unknown && !is_known_server_request_method(method) {
        ServerRequestRoute::AutoDecline
    } else {
        ServerRequestRoute::Queue
    }
}

/// `r` is success when `e` is `None`, else the internal error `e`.
pub open spec fn internal_outcome(r: Result<(), RuntimeError>, e: Option<Seq<char>>) -> bool {
    match e {
        None => r is Ok,
        Some(m) => r matches Err(RuntimeError::Internal(x)) && x@ == m,
    }
}

/// `chatgptPlanType` is absent, a string or null.
pub open spec fn plan_type_ok(v: Option<JsonValue>) -> bool {
    match v {
        None => true,
        Some(JsonValue::String(_)) => true,
        Some(JsonValue::Null) => true,
        _ => false,
    }
}

/// Why a client's answer to a server request is refused, if it is.
pub open spec fn server_result_error(method: Seq<char>, result: JsonValue) -> Option<Seq<char>> {
    if method == "item/commandExecution/requestApproval"@ || method == "item/fileChange/requestApproval"@ {
        match spec_get(result, "decision"@) {
            Some(JsonValue::String(_)) => None,
            Some(JsonValue::Object(o)) => if o@.len() > 0 {
                None
            } else {
                Some("invalid approval payload for "@ + method + ": missing decision"@)
            },
            _ => Some("invalid approval payload for "@ + method + ": missing decision"@),
        }
    } else if method == "item/tool/requestUserInput"@ {
        if !(result is Object) {
            Some("invalid requestUserInput payload: expected object"@)
        } else if !(spec_get(result, "answers"@) matches Some(JsonValue::Object(_))) {
            Some("invalid requestUserInput payload: missing answers object"@)
        } else {
            None
        }
    } else if method == "item/tool/call"@ {
        if !(result is Object) {
            Some("invalid dynamic tool call payload: expected object"@)
        } else if !(spec_get(result, "success"@) matches Some(JsonValue::Bool(_))) {
            Some("invalid dynamic tool call payload: missing success boolean"@)
        } else if !(spec_get(result, "contentItems"@) matches Some(JsonValue::Array(_))) {
            Some("invalid dynamic tool call payload: missing contentItems array"@)
        } else {
            None
        }
    } else if method == "account/chatgptAuthTokens/refresh"@ {
        if !(result is Object) {
            Some("invalid auth refresh payload: expected object"@)
        } else if !(spec_get(result, "accessToken"@) matches Some(JsonValue::String(_))) {
            Some("invalid auth refresh payload: missing accessToken"@)
        } else if !(spec_get(result, "chatgptAccountId"@) matches Some(JsonValue::String(_))) {
            Some("invalid auth refresh payload: missing chatgptAccountId"@)
        } else if !plan_type_ok(spec_get(result, "chatgptPlanType"@)) {
            Some("invalid auth refresh payload: chatgptPlanType must be string|null"@)
        } else {
            None
        }
    } else {
        None
    }
}

/// Internal error with message `m`.
fn internal(m: &str) -> (e: RuntimeError)
    ensures
        e matches RuntimeError::Internal(x) && x@ == m@,
{
    RuntimeError::Internal(owned(m))
}

/// Checks a client's answer to a server request (see `server_result_error`).
pub fn validate_server_request_result_payload(method: &str, result: &JsonValue) -> (r: Result<(), RuntimeError>)
    ensures
        internal_outcome(r, server_result_error(method@, *result)),
{
    if str_eq(method, "item/commandExecution/requestApproval") || str_eq(method, "item/fileChange/requestApproval") {
        let ok = match result.get("decision") {
            Some(d) => match d {
                JsonValue::String(_) => true,
                JsonValue::Object(o) => o.len() > 0,
                _ => false,
            },
            None => false,
        };
        if ok {
            Ok(())
        } else {
            let mut m = owned("invalid approval payload for ");
            push_str(&mut m, method);
            push_str(&mut m, ": missing decision");
            Err(RuntimeError::Internal(m))
        }
    } else if str_eq(method, "item/tool/requestUserInput") {
        if !result.is_object() {
            return Err(internal("invalid requestUserInput payload: expected object"));
        }
        let ok = match result.get("answers") {
            Some(a) => a.is_object(),
            None => false,
        };
        if !ok {
            return Err(internal("invalid requestUserInput payload: missing answers object"));
        }
        Ok(())
    } else if str_eq(method, "item/tool/call") {
        if !result.is_object() {
            return Err(internal("invalid dynamic tool call payload: expected object"));
        }
        let ok = match result.get("success") {
            Some(s) => s.as_bool().is_some(),
            None => false,
        };
        if !ok {
            return Err(internal("invalid dynamic tool call payload: missing success boolean"));
        }
        let ok = match result.get("contentItems") {
            Some(c) => c.is_array(),
            None => false,
        };
        if !ok {
            return Err(internal("invalid dynamic tool call payload: missing contentItems array"));
        }
        Ok(())
    } else if str_eq(method, "account/chatgptAuthTokens/refresh") {
        if !result.is_object() {
            return Err(internal("invalid auth refresh payload: expected object"));
        }
        let ok = match result.get("accessToken") {
            Some(t) => t.is_string(),
            None => false,
        };
        if !ok {
            return Err(internal("invalid auth refresh payload: missing accessToken"));
        }
        let ok = match result.get("chatgptAccountId") {
            Some(t) => t.is_string(),
            None => false,
        };
        if !ok {
            return Err(internal("invalid auth refresh payload: missing chatgptAccountId"));
        }
        let ok = match result.get("chatgptPlanType") {
            Some(t) => match t {
                JsonValue::String(_) => true,
                JsonValue::Null => true,
                _ => false,
            },
            None => true,
        };
        if !ok {
            return Err(internal("invalid auth refresh payload: chatgptPlanType must be string|null"));
        }
        Ok(())
    } else {
        Ok(())
    }
}

/// The answer sent for a request that timed out, by method: empty answers
/// for user input, a failed empty tool call, else a `cancel` or `decline`
/// decision.
pub open spec fn timeout_payload_ok(method: Seq<char>, cancel: bool, v: JsonValue) -> bool {
    &&& v matches JsonValue::Object(f)
    &&& if method == "item/tool/requestUserInput"@ {
        &&& f@.len() == 1
        &&& f@[0].0@ == "answers"@
        &&& f@[0].1 matches JsonValue::Object(a) && a@.len() == 0
    } else if method == "item/tool/call"@ {
        &&& f@.len() == 2
        &&& f@[0].0@ == "success"@
        &&& f@[0].1 == JsonValue::Bool(false)
        &&& f@[1].0@ == "contentItems"@
        &&& f@[1].1 matches JsonValue::Array(a) && a@.len() == 0
    } else {
        f@.len() == 1 && str_member(f@, 0, "decision"@, if cancel { "cancel"@ } else { "decline"@ })
    }
}

/// The answer sent for a request that timed out (see `timeout_payload_ok`).
pub fn timeout_result_payload(method: &str, cancel: bool) -> (r: JsonValue)
    ensures
        timeout_payload_ok(method@, cancel, r),
{
    let mut f: Vec<(String, JsonValue)> = Vec::new();
    if str_eq(method, "item/tool/requestUserInput") {
        push_member(&mut f, "answers", JsonValue::Object(Vec::new()));
    } else if str_eq(method, "item/tool/call") {
        push_member(&mut f, "success", JsonValue::Bool(false));
        push_member(&mut f, "contentItems", JsonValue::Array(Vec::new()));
    } else {
        let decision = if cancel { "cancel" } else { "decline" };
        push_str_member(&mut f, "decision", decision);
    }
    JsonValue::Object(f)
}

/// The error object sent when a request timed out: code -32000, message
/// "server request timed out", and the method in `data`.
pub open spec fn timeout_error_ok(method: Seq<char>, v: JsonValue) -> bool {
    &&& v matches JsonValue::Object(f)
    &&& f@.len() == 3
    &&& f@[0].0@ == "code"@
    &&& f@[0].1 == JsonValue::Number(JsonNumber::NegInt(-32000i64))
    &&& str_member(f@, 1, "message"@, "server request timed out"@)
    &&& f@[2].0@ == "data"@
    &&& f@[2].1 matches JsonValue::Object(d)
    &&& d@.len() == 1
    &&& str_member(d@, 0, "method"@, method)
}

/// The error object sent when a request timed out.
pub fn timeout_error_payload(method: &str) -> (r: JsonValue)
    ensures
        timeout_error_ok(method@, r),
{
    let mut data: Vec<(String, JsonValue)> = Vec::new();
    push_str_member(&mut data, "method", method);
    let mut f: Vec<(String, JsonValue)> = Vec::new();
    push_member(&mut f, "code", JsonValue::Number(JsonNumber::NegInt(-32000)));
    push_str_member(&mut f, "message", "server request timed out");
    push_member(&mut f, "data", JsonValue::Object(data));
    JsonValue::Object(f)
}

/// What is sent for a server request that timed out.
#[derive(Debug)]
pub enum TimeoutReply {
    /// A JSON-RPC result with this payload.
    Result(JsonValue),
    /// A JSON-RPC error with this error object.
    Error(JsonValue),
}

/// The reply to a timed-out request: auth refresh always gets the timeout
/// error; otherwise `Decline` and `Cancel` send the matching decision
/// payload and `Error` sends the timeout error.
pub fn timeout_reply(method: &str, on_timeout: TimeoutAction) -> (r: TimeoutReply)
    ensures
        method@ == "account/chatgptAuthTokens/refresh"@ ==> (r matches TimeoutReply::Error(e) && timeout_error_ok(method@, e)),
        method@ != "account/chatgptAuthTokens/refresh"@ ==> match on_timeout {
            TimeoutAction::Decline => (r matches TimeoutReply::Result(p) && timeout_payload_ok(method@, false, p)),
            TimeoutAction::Cancel => (r matches TimeoutReply::Result(p) && timeout_payload_ok(method@, true, p)),
            TimeoutAction::Error => (r matches TimeoutReply::Error(e) && timeout_error_ok(method@, e)),
        },
{
    if str_eq(method, "account/chatgptAuthTokens/refresh") {
        return TimeoutReply::Error(timeout_error_payload(method));
    }
    match on_timeout {
        TimeoutAction::Decline => TimeoutReply::Result(timeout_result_payload(method, false)),
        TimeoutAction::Cancel => TimeoutReply::Result(timeout_result_payload(method, true)),
        TimeoutAction::Error => TimeoutReply::Error(timeout_error_payload(method)),
    }
}

/// A JSON-RPC id as a JSON value.
pub fn jsonrpc_id_to_value(id: &JsonRpcId) -> (r: JsonValue)
    ensures
        match *id {
            JsonRpcId::Number(n) => r == JsonValue::Number(JsonNumber::PosInt(n)),
            JsonRpcId::Text(t) => r matches JsonValue::String(s) && s@ == t@,
        },
{
    match id {
        JsonRpcId::Number(v) => JsonValue::Number(JsonNumber::PosInt(*v)),
        JsonRpcId::Text(v) => JsonValue::String(v.clone()),
    }
}

/// Key of a request id in tables: `n:` and the number, or `s:` and the text.
pub open spec fn spec_state_key(id: JsonRpcId) -> Seq<char> {
    match id {
        JsonRpcId::Number(n) => "n:"@ + decimal(n as nat),
        JsonRpcId::Text(t) => "s:"@ + t@,
    }
}

/// Key of a request id in tables (see `spec_state_key`).
pub fn jsonrpc_state_key(id: &JsonRpcId) -> (r: String)
    ensures
        r@ == spec_state_key(*id),
{
    match id {
        JsonRpcId::Number(v) => {
            let mut k = owned("n:");
            let d = u64_to_decimal(*v);
            push_str(&mut k, d.as_str());
            k
        },
        JsonRpcId::Text(v) => {
            let mut k = owned("s:");
            push_str(&mut k, v.as_str());
            k
        },
    }
}

/// A JSON-RPC message answering request `id` with `result`.
pub fn rpc_result_message(id: &JsonRpcId, result: JsonValue) -> (r: JsonValue)
    ensures
        r matches JsonValue::Object(f) && f@.len() == 2 && f@[0].0@ == "id"@ && f@[1].0@ == "result"@ && f@[1].1 == result,
{
    let mut f: Vec<(String, JsonValue)> = Vec::new();
    push_member(&mut f, "id", jsonrpc_id_to_value(id));
    push_member(&mut f, "result", result);
    JsonValue::Object(f)
}

/// A JSON-RPC message answering request `id` with the error object `error`.
pub fn rpc_error_message(id: &JsonRpcId, error: JsonValue) -> (r: JsonValue)
    ensures
        r matches JsonValue::Object(f) && f@.len() == 2 && f@[0].0@ == "id"@ && f@[1].0@ == "error"@ && f@[1].1 == error,
{
    let mut f: Vec<(String, JsonValue)> = Vec::new();
    push_member(&mut f, "id", jsonrpc_id_to_value(id));
    push_member(&mut f, "error", error);
    JsonValue::Object(f)
}

/// Routing: requests of the older protocol are always declined; known
/// methods are always queued; with `auto_decline_unknown` off only the
/// older protocol's requests are declined.
pub proof fn lemma_routing_rules(method: Seq<char>, auto_decline_unknown: bool)
    ensures
        spec_is_legacy_server_request(method) ==> spec_route(method, auto_decline_unknown) == ServerRequestRoute::AutoDecline,
        spec_is_known_server_request(method) ==> spec_route(method, auto_decline_unknown) == ServerRequestRoute::Queue,
        !auto_decline_unknown ==> (spec_route(method, false) == ServerRequestRoute::AutoDecline <==> spec_is_legacy_server_request(method)),
{
    reveal_strlit("applyPatchApproval");
    reveal_strlit("execCommandApproval");
    reveal_strlit("item/commandExecution/requestApproval");
    reveal_strlit("item/fileChange/requestApproval");
    reveal_strlit("item/tool/requestUserInput");
    reveal_strlit("item/tool/call");
    reveal_strlit("account/chatgptAuthTokens/refresh");
    if spec_is_known_server_request(method) {
        assert(method[0] == 'i' || method[0] == 'a');
        if method[0] == 'a' {
            assert(method.len() == 33);
        }
    }
}

/// The answer sent when a request times out is one the answer check
/// accepts, for every method but auth refresh (which is answered with an
/// error instead).
pub proof fn lemma_timeout_payload_is_accepted(method: Seq<char>, cancel: bool, payload: JsonValue)
    requires
        method != "account/chatgptAuthTokens/refresh"@,
        timeout_payload_ok(method, cancel, payload),
    ensures
        server_result_error(method, payload) is None,
{
    reveal_strlit("item/commandExecution/requestApproval");
    reveal_strlit("item/fileChange/requestApproval");
    reveal_strlit("item/tool/requestUserInput");
    reveal_strlit("item/tool/call");
    reveal_strlit("answers");
    reveal_strlit("success");
    reveal_strlit("contentItems");
    reveal_strlit("decision");
    let f = payload->Object_0@;
    if method == "item/tool/requestUserInput"@ {
        assert(crate::json::spec_field(f, "answers"@) == Some(f[0].1));
    } else if method == "item/tool/call"@ {
        assert("success"@.len() != "contentItems"@.len());
        assert(f[0].0@ != "contentItems"@);
        reveal_with_fuel(crate::json::spec_field, 2);
        assert(crate::json::spec_field(f, "success"@) == Some(f[0].1));
        assert(f.drop_first()[0] == f[1]);
        assert(crate::json::spec_field(f, "contentItems"@) == Some(f[1].1));
    } else {
        assert(crate::json::spec_field(f, "decision"@) == Some(f[0].1));
    }
}

} // verus!
