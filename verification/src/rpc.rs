//! Reading JSON-RPC messages: their kind, the thread/turn/item ids they
//! carry, and the typed error of an error object.
use vstd::prelude::*;
use crate::errors::{RpcError, RpcErrorObject};
use crate::events::MsgKind;
use crate::json::{
    clone_json, get_opt, json_same, opt_as_str, opt_deref, opt_str_view, opt_string, spec_as_i64,
    spec_as_str, spec_get, spec_get_opt, JsonValue,
};
use crate::text::owned;

verus! {

/// Kind of a message by the members it has: a response has an id and a
/// result or error but no method; a server request has an id and a method
/// but neither result nor error; a notification has a method and no id.
pub open spec fn spec_classify(json: JsonValue) -> MsgKind {
    let has_id = spec_get(json, "id"@) is Some;
    let has_method = spec_get(json, "method"@) is Some;
    let has_result = spec_get(json, "result"@) is Some;
    let has_error = spec_get(json, "error"@) is Some;
    if has_id && !has_method && (has_result || has_error) {
        MsgKind::Response
    } else if has_id && has_method && !has_result && !has_error {
        MsgKind::ServerRequest
    } else if has_method && !has_id {
        MsgKind::Notification
    } else {
        MsgKind::Unknown
    }
}

/// Kind of a raw message (see `spec_classify`).
pub fn classify_message(json: &JsonValue) -> (r: MsgKind)
    ensures
        r == spec_classify(*json),
{
    let has_id = json.get("id").is_some();
    let has_method = json.get("method").is_some();
    let has_result = json.get("result").is_some();
    let has_error = json.get("error").is_some();
    if has_id && !has_method && (has_result || has_error) {
        return MsgKind::Response;
    }
    if has_id && has_method && !has_result && !has_error {
        return MsgKind::ServerRequest;
    }
    if has_method && !has_id {
        return MsgKind::Notification;
    }
    MsgKind::Unknown
}

/// Ids found in a message.
#[derive(Clone, Debug, PartialEq, Eq)]
pub struct ExtractedIds {
    pub thread_id: Option<String>,
    pub turn_id: Option<String>,
    pub item_id: Option<String>,
}

/// The first of two optional texts that is present.
pub open spec fn or_else(a: Option<Seq<char>>, b: Option<Seq<char>>) -> Option<Seq<char>> {
    if a is Some { a } else { b }
}

/// String `key` of `root`, else of `root.params`.
pub open spec fn str_field(root: JsonValue, key: Seq<char>) -> Option<Seq<char>> {
    or_else(spec_as_str(spec_get(root, key)), spec_as_str(spec_get_opt(spec_get(root, "params"@), key)))
}

/// String `key.id` of `root`, else of `root.params`.
pub open spec fn nested_id_field(root: JsonValue, key: Seq<char>) -> Option<Seq<char>> {
    or_else(
        spec_as_str(spec_get_opt(spec_get(root, key), "id"@)),
        spec_as_str(spec_get_opt(spec_get_opt(spec_get(root, "params"@), key), "id"@)),
    )
}

/// An id of `root`: the flat field (say `threadId`), else the nested one
/// (say `thread.id`).
pub open spec fn id_in_root(root: JsonValue, flat: Seq<char>, nested: Seq<char>) -> Option<Seq<char>> {
    or_else(str_field(root, flat), nested_id_field(root, nested))
}

/// An id of a message, looked up in `params`, `result`, `error.data`, then
/// the message itself.
pub open spec fn message_id(json: JsonValue, flat: Seq<char>, nested: Seq<char>) -> Option<Seq<char>> {
    let in_opt = |r: Option<JsonValue>| match r {
        Some(x) => id_in_root(x, flat, nested),
        None => None,
    };
    or_else(in_opt(spec_get(json, "params"@)),
        or_else(in_opt(spec_get(json, "result"@)),
            or_else(in_opt(spec_get_opt(spec_get(json, "error"@), "data"@)),
                id_in_root(json, flat, nested))))
}

/// String `key` of `root`, else of `root.params`.
fn get_str_field(root: &JsonValue, key: &str) -> (r: Option<String>)
    ensures
        opt_str_view(r) == str_field(*root, key@),
{
    let direct = opt_string(root.get(key));
    if direct.is_some() {
        return direct;
    }
    opt_string(get_opt(root.get("params"), key))
}

/// String `key.id` of `root`, else of `root.params`.
fn get_nested_id_field(root: &JsonValue, key: &str) -> (r: Option<String>)
    ensures
        opt_str_view(r) == nested_id_field(*root, key@),
{
    let direct = opt_string(get_opt(root.get(key), "id"));
    if direct.is_some() {
        return direct;
    }
    opt_string(get_opt(get_opt(root.get("params"), key), "id"))
}

/// An id of one root (see `id_in_root`).
fn get_id(root: &JsonValue, flat: &str, nested: &str) -> (r: Option<String>)
    ensures
        opt_str_view(r) == id_in_root(*root, flat@, nested@),
{
    let f = get_str_field(root, flat);
    if f.is_some() {
        return f;
    }
    get_nested_id_field(root, nested)
}

/// An id of an optional root.
fn get_id_opt(root: Option<&JsonValue>, flat: &str, nested: &str) -> (r: Option<String>)
    ensures
        opt_str_view(r) == match opt_deref(root) {
            Some(x) => id_in_root(x, flat@, nested@),
            None => None,
        },
{
    match root {
        Some(x) => get_id(x, flat, nested),
        None => None,
    }
}

/// An id of a message (see `message_id`).
fn find_message_id(json: &JsonValue, flat: &str, nested: &str) -> (r: Option<String>)
    ensures
        opt_str_view(r) == message_id(*json, flat@, nested@),
{
    let a = get_id_opt(json.get("params"), flat, nested);
    if a.is_some() {
        return a;
    }
    let b = get_id_opt(json.get("result"), flat, nested);
    if b.is_some() {
        return b;
    }
    let c = get_id_opt(get_opt(json.get("error"), "data"), flat, nested);
    if c.is_some() {
        return c;
    }
    get_id(json, flat, nested)
}

/// Thread, turn and item ids of a message (see `message_id`).
pub fn extract_ids(json: &JsonValue) -> (r: ExtractedIds)
    ensures
        opt_str_view(r.thread_id) == message_id(*json, "threadId"@, "thread"@),
        opt_str_view(r.turn_id) == message_id(*json, "turnId"@, "turn"@),
        opt_str_view(r.item_id) == message_id(*json, "itemId"@, "item"@),
{
    ExtractedIds {
        thread_id: find_message_id(json, "threadId", "thread"),
        turn_id: find_message_id(json, "turnId", "turn"),
        item_id: find_message_id(json, "itemId", "item"),
    }
}

/// The message of an error object, or "unknown rpc error".
pub open spec fn error_message(e: JsonValue) -> Seq<char> {
    match spec_as_str(spec_get(e, "message"@)) {
        Some(m) => m,
        None => "unknown rpc error"@,
    }
}

/// Typed error of a JSON-RPC error object: -32001 is overload, -32600 an
/// invalid request, -32601 an unknown method, any other code a server
/// error carrying code, message and data; without a code the payload is
/// itself invalid.
pub open spec fn rpc_error_matches(e: JsonValue, r: RpcError) -> bool {
    match spec_as_i64(spec_get(e, "code"@)) {
        Some(c) => if c == -32001 {
            r is Overloaded
        } else if c == -32600 {
            r matches RpcError::InvalidRequest(m) && m@ == error_message(e)
        } else if c == -32601 {
            r matches RpcError::MethodNotFound(m) && m@ == error_message(e)
        } else {
            &&& r matches RpcError::ServerError(o)
            &&& o.code == c
            &&& o.message@ == error_message(e)
            &&& match spec_get(e, "data"@) {
                Some(d) => o.data matches Some(x) && json_same(x, d),
                None => o.data is None,
            }
        },
        None => r matches RpcError::InvalidRequest(m) && m@ == "invalid rpc error payload"@,
    }
}

/// Typed error of a JSON-RPC error object (see `rpc_error_matches`).
pub fn map_rpc_error(json_error: &JsonValue) -> (r: RpcError)
    ensures
        rpc_error_matches(*json_error, r),
{
    let code = match json_error.get("code") {
        Some(c) => c.as_i64(),
        None => None,
    };
    let message = match opt_as_str(json_error.get("message")) {
        Some(m) => owned(m),
        None => owned("unknown rpc error"),
    };
    let data = match json_error.get("data") {
        Some(d) => Some(clone_json(d)),
        None => None,
    };
    match code {
        Some(c) => {
            if c == -32001 {
                RpcError::Overloaded
            } else if c == -32600 {
                RpcError::InvalidRequest(message)
            } else if c == -32601 {
                RpcError::MethodNotFound(message)
            } else {
                RpcError::ServerError(RpcErrorObject { code: c, message, data })
            }
        },
        None => RpcError::InvalidRequest(owned("invalid rpc error payload")),
    }
}

} // verus!
