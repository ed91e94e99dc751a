//! What the runtime does with each message read from the server: a
//! response settles the pending call of its id, a server request is
//! declined or queued, and every message becomes an envelope; and which
//! queued server requests have run out of time.
use vstd::prelude::*;
use crate::approvals::{route_server_request, spec_route, spec_state_key, jsonrpc_state_key, ServerRequestRoute, PendingServerRequest};
use crate::errors::RpcError;
use crate::events::{Direction, Envelope, JsonRpcId, MsgKind};
use crate::json::{clone_json, json_same, opt_as_str, opt_str_view, opt_string, spec_as_str, spec_as_u64, spec_get, JsonValue};
use crate::rpc::{classify_message, extract_ids, map_rpc_error, message_id, rpc_error_matches, spec_classify};
use crate::text::owned;

verus! {

/// The kind and identifiers of one message.
#[derive(Debug)]
pub struct MessageMetadata {
    pub kind: MsgKind,
    /// The id as a number, which is how calls of this client are numbered.
    pub response_id: Option<u64>,
    /// The id, a number or a text.
    pub rpc_id: Option<JsonRpcId>,
    pub method: Option<String>,
    pub thread_id: Option<String>,
    pub turn_id: Option<String>,
    pub item_id: Option<String>,
}

/// `r` is the request id held by `v`: a number, else a text, else none.
pub open spec fn rpc_id_of(v: Option<JsonValue>, r: Option<JsonRpcId>) -> bool {
    match spec_as_u64(v) {
        Some(n) => r == Some(JsonRpcId::Number(n)),
        None => match spec_as_str(v) {
            Some(s) => r matches Some(JsonRpcId::Text(t)) && t@ == s,
            None => r is None,
        },
    }
}

/// `m` describes the message `json`.
pub open spec fn metadata_of(json: JsonValue, m: MessageMetadata) -> bool {
    &&& m.kind == spec_classify(json)
    &&& m.response_id == spec_as_u64(spec_get(json, "id"@))
    &&& rpc_id_of(spec_get(json, "id"@), m.rpc_id)
    &&& opt_str_view(m.method) == spec_as_str(spec_get(json, "method"@))
    &&& opt_str_view(m.thread_id) == message_id(json, "threadId"@, "thread"@)
    &&& opt_str_view(m.turn_id) == message_id(json, "turnId"@, "turn"@)
    &&& opt_str_view(m.item_id) == message_id(json, "itemId"@, "item"@)
}

/// The kind and identifiers of a message.
pub fn extract_message_metadata(json: &JsonValue) -> (m: MessageMetadata)
    ensures
        metadata_of(*json, m),
{
    let id = json.get("id");
    let response_id = match id {
        Some(v) => v.as_u64(),
        None => None,
    };
    let rpc_id = match response_id {
        Some(n) => Some(JsonRpcId::Number(n)),
        None => match opt_as_str(id) {
            Some(s) => Some(JsonRpcId::Text(owned(s))),
            None => None,
        },
    };
    let ids = extract_ids(json);
    MessageMetadata {
        kind: classify_message(json),
        response_id,
        rpc_id,
        method: opt_string(json.get("method")),
        thread_id: ids.thread_id,
        turn_id: ids.turn_id,
        item_id: ids.item_id,
    }
}

/// What to do with one message besides recording it.
#[derive(Debug)]
pub enum InboundAction {
    /// Hand `response` to the call waiting on `id`, if one is.
    SettleCall { id: u64, response: Result<JsonValue, RpcError> },
    /// Answer the server request at once with the timeout policy.
    AutoDecline { id: JsonRpcId, method: String },
    /// Queue the server request for an answer.
    Queue { id: JsonRpcId, method: String, params: JsonValue },
    /// Nothing to do.
    Observe,
}

/// `r` is the response a message carries: the mapped `error` when there
/// is one, else the `result` (null when absent).
pub open spec fn response_of(json: JsonValue, r: Result<JsonValue, RpcError>) -> bool {
    match spec_get(json, "error"@) {
        Some(e) => r matches Err(x) && rpc_error_matches(e, x),
        None => r matches Ok(v) && json_same(v, match spec_get(json, "result"@) {
            Some(x) => x,
            None => JsonValue::Null,
        }),
    }
}

/// `a` is what to do with message `json` described by `m`: a response
/// with a numeric id settles that call; a server request with an id and
/// a method is declined or queued by its route, with its params (null when
/// absent); anything else is only observed.
pub open spec fn inbound_action_of(json: JsonValue, m: MessageMetadata, auto_decline_unknown: bool, a: InboundAction) -> bool {
    if m.kind == MsgKind::Response && m.response_id is Some {
        a matches InboundAction::SettleCall { id, response } && id == m.response_id->0 && response_of(json, response)
    } else if m.kind == MsgKind::ServerRequest && m.rpc_id is Some && m.method is Some {
        if spec_route(m.method->0@, auto_decline_unknown) == ServerRequestRoute::AutoDecline {
            a matches InboundAction::AutoDecline { id, method } && id == m.rpc_id->0 && method@ == m.method->0@
        } else {
            &&& a matches InboundAction::Queue { id, method, params }
            &&& id == m.rpc_id->0
            &&& method@ == m.method->0@
            &&& json_same(params, match spec_get(json, "params"@) { Some(x) => x, None => JsonValue::Null })
        }
    } else {
        a is Observe
    }
}

/// A copy of an optional request id.
fn clone_rpc_id(id: &JsonRpcId) -> (r: JsonRpcId)
    ensures
        r == *id,
{
    match id {
        JsonRpcId::Number(n) => JsonRpcId::Number(*n),
        JsonRpcId::Text(t) => JsonRpcId::Text(t.clone()),
    }
}

/// A copy of an optional member, null when absent.
fn member_or_null(json: &JsonValue, key: &str) -> (r: JsonValue)
    ensures
        json_same(r, match spec_get(*json, key@) { Some(x) => x, None => JsonValue::Null }),
{
    match json.get(key) {
        Some(v) => clone_json(v),
        None => JsonValue::Null,
    }
}

/// What to do with a message (see `inbound_action_of`).
pub fn inbound_action(json: &JsonValue, meta: &MessageMetadata, auto_decline_unknown: bool) -> (a: InboundAction)
    ensures
        inbound_action_of(*json, *meta, auto_decline_unknown, a),
{
    match meta.kind {
        MsgKind::Response => match meta.response_id {
            Some(id) => {
                let response = match json.get("error") {
                    Some(e) => Err(map_rpc_error(e)),
                    None => Ok(member_or_null(json, "result")),
                };
                InboundAction::SettleCall { id, response }
            },
            None => InboundAction::Observe,
        },
        MsgKind::ServerRequest => match (&meta.rpc_id, &meta.method) {
            (Some(id), Some(method)) => match route_server_request(method.as_str(), auto_decline_unknown) {
                ServerRequestRoute::AutoDecline => InboundAction::AutoDecline { id: clone_rpc_id(id), method: method.clone() },
                ServerRequestRoute::Queue => InboundAction::Queue {
                    id: clone_rpc_id(id),
                    method: method.clone(),
                    params: member_or_null(json, "params"),
                },
            },
            _ => InboundAction::Observe,
        },
        _ => InboundAction::Observe,
    }
}

/// The inbound envelope of a message with its metadata.
pub fn inbound_envelope(seq: u64, ts_millis: i64, meta: MessageMetadata, json: JsonValue) -> (e: Envelope)
    ensures
        e == (Envelope {
            seq,
            ts_millis,
            direction: Direction::Inbound,
            kind: meta.kind,
            rpc_id: meta.rpc_id,
            method: meta.method,
            thread_id: meta.thread_id,
            turn_id: meta.turn_id,
            item_id: meta.item_id,
            json,
        }),
{
    Envelope {
        seq,
        ts_millis,
        direction: Direction::Inbound,
        kind: meta.kind,
        rpc_id: meta.rpc_id,
        method: meta.method,
        thread_id: meta.thread_id,
        turn_id: meta.turn_id,
        item_id: meta.item_id,
        json,
    }
}

/// A queued server request: its approval id, request id and key, method,
/// and when it was queued and expires.
#[derive(Debug)]
pub struct PendingServerRequestEntry {
    pub approval_id: String,
    pub rpc_id: JsonRpcId,
    pub rpc_key: String,
    pub method: String,
    pub created_at_millis: i64,
    pub deadline_millis: i64,
}

/// The entry of a server request queued at `now_ms` that expires
/// `timeout_ms` later.
pub fn pending_entry(approval_id: String, rpc_id: JsonRpcId, method: &str, now_ms: i64, timeout_ms: u64) -> (e: PendingServerRequestEntry)
    requires
        timeout_ms <= i64::MAX,
        now_ms + timeout_ms <= i64::MAX,
    ensures
        e.approval_id == approval_id,
        e.rpc_id == rpc_id,
        e.rpc_key@ == spec_state_key(rpc_id),
        e.method@ == method@,
        e.created_at_millis == now_ms,
        e.deadline_millis == now_ms + timeout_ms,
{
    let rpc_key = jsonrpc_state_key(&rpc_id);
    PendingServerRequestEntry {
        approval_id,
        rpc_id,
        rpc_key,
        method: owned(method),
        created_at_millis: now_ms,
        deadline_millis: now_ms + timeout_ms as i64,
    }
}

/// The state record of a queued request with its params.
pub fn pending_request_record(entry: &PendingServerRequestEntry, params: JsonValue) -> (r: PendingServerRequest)
    ensures
        r.approval_id == entry.approval_id,
        r.deadline_unix_ms == entry.deadline_millis,
        r.method == entry.method,
        r.params == params,
{
    PendingServerRequest {
        approval_id: entry.approval_id.clone(),
        deadline_unix_ms: entry.deadline_millis,
        method: entry.method.clone(),
        params,
    }
}

/// A queued request has expired at `now_ms` once its deadline is reached.
pub open spec fn is_expired(e: PendingServerRequestEntry, now_ms: i64) -> bool {
    e.deadline_millis <= now_ms
}

/// Splits queued requests into those expired at `now_ms` and the rest,
/// each in the order given.
pub fn split_expired(entries: Vec<PendingServerRequestEntry>, now_ms: i64) -> (r: (Vec<PendingServerRequestEntry>, Vec<PendingServerRequestEntry>))
    ensures
        r.0@ == entries@.filter(|e: PendingServerRequestEntry| is_expired(e, now_ms)),
        r.1@ == entries@.filter(|e: PendingServerRequestEntry| !is_expired(e, now_ms)),
        r.0@.len() + r.1@.len() == entries@.len(),
{
    let ghost all = entries@;
    let ghost exp = |e: PendingServerRequestEntry| is_expired(e, now_ms);
    let ghost keep = |e: PendingServerRequestEntry| !is_expired(e, now_ms);
    let mut expired: Vec<PendingServerRequestEntry> = Vec::new();
    let mut kept: Vec<PendingServerRequestEntry> = Vec::new();
    let mut rest = entries;
    assert(all.take(0) =~= Seq::<PendingServerRequestEntry>::empty());
    assert(all.skip(0) =~= all);
    proof {
        reveal(Seq::filter);
    }
    while rest.len() > 0
        invariant
            rest@.len() <= all.len(),
            rest@ == all.skip(all.len() - rest@.len()),
            expired@ == all.take(all.len() - rest@.len()).filter(exp),
            kept@ == all.take(all.len() - rest@.len()).filter(keep),
            expired@.len() + kept@.len() == all.len() - rest@.len(),
            exp == (|e: PendingServerRequestEntry| is_expired(e, now_ms)),
            keep == (|e: PendingServerRequestEntry| !is_expired(e, now_ms)),
        decreases rest@.len(),
    {
        let ghost done = all.len() - rest@.len();
        let ghost before = rest@;
        let e = rest.remove(0);
        proof {
            assert(e == all[done]);
            assert(all.take(done + 1) =~= all.take(done).push(all[done]));
            all.take(done).lemma_filter_push(all[done], exp);
            all.take(done).lemma_filter_push(all[done], keep);
            assert(rest@ =~= all.skip(done + 1));
        }
        if e.deadline_millis <= now_ms {
            expired.push(e);
        } else {
            kept.push(e);
        }
    }
    assert(all.take(all.len() as int) =~= all);
    (expired, kept)
}

} // verus!
