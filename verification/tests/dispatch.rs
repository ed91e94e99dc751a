use coclai::approvals::PendingServerRequest;
use coclai::dispatch::{
    extract_message_metadata, inbound_action, inbound_envelope, pending_entry, pending_request_record, split_expired,
    InboundAction,
};
use coclai::errors::RpcError;
use coclai::events::{Direction, JsonRpcId, MsgKind};
use coclai::json::{JsonNumber, JsonValue};

fn s(x: &str) -> JsonValue {
    JsonValue::String(x.to_owned())
}

fn n(v: u64) -> JsonValue {
    JsonValue::Number(JsonNumber::PosInt(v))
}

fn obj(fields: Vec<(&str, JsonValue)>) -> JsonValue {
    JsonValue::Object(fields.into_iter().map(|(k, v)| (k.to_owned(), v)).collect())
}

#[test]
fn metadata_reads_kind_ids_and_method() {
    let msg = obj(vec![
        ("id", s("req-1")),
        ("method", s("item/tool/call")),
        ("params", obj(vec![("threadId", s("thr")), ("turnId", s("t"))])),
    ]);
    let meta = extract_message_metadata(&msg);
    assert_eq!(meta.kind, MsgKind::ServerRequest);
    assert_eq!(meta.response_id, None);
    assert_eq!(meta.rpc_id, Some(JsonRpcId::Text("req-1".to_owned())));
    assert_eq!(meta.method.as_deref(), Some("item/tool/call"));
    assert_eq!(meta.thread_id.as_deref(), Some("thr"));
    assert_eq!(meta.turn_id.as_deref(), Some("t"));
    let resp = obj(vec![("id", n(7)), ("result", obj(vec![]))]);
    let meta = extract_message_metadata(&resp);
    assert_eq!(meta.response_id, Some(7));
    assert_eq!(meta.rpc_id, Some(JsonRpcId::Number(7)));
}

#[test]
fn responses_settle_their_calls() {
    let ok = obj(vec![("id", n(3)), ("result", s("done"))]);
    let meta = extract_message_metadata(&ok);
    match inbound_action(&ok, &meta, true) {
        InboundAction::SettleCall { id, response: Ok(JsonValue::String(v)) } => {
            assert_eq!(id, 3);
            assert_eq!(v, "done");
        }
        other => panic!("unexpected {other:?}"),
    }
    let err = obj(vec![("id", n(4)), ("error", obj(vec![("code", JsonValue::Number(JsonNumber::NegInt(-32001)))]))]);
    let meta = extract_message_metadata(&err);
    assert!(matches!(
        inbound_action(&err, &meta, true),
        InboundAction::SettleCall { id: 4, response: Err(RpcError::Overloaded) }
    ));
}

#[test]
fn server_requests_are_queued_or_declined_by_route() {
    let known = obj(vec![("id", n(9)), ("method", s("item/fileChange/requestApproval")), ("params", obj(vec![]))]);
    let meta = extract_message_metadata(&known);
    assert!(matches!(inbound_action(&known, &meta, true), InboundAction::Queue { id: JsonRpcId::Number(9), .. }));
    let unknown = obj(vec![("id", n(10)), ("method", s("future/method"))]);
    let meta = extract_message_metadata(&unknown);
    assert!(matches!(inbound_action(&unknown, &meta, true), InboundAction::AutoDecline { .. }));
    match inbound_action(&unknown, &meta, false) {
        InboundAction::Queue { params, .. } => assert!(matches!(params, JsonValue::Null)),
        other => panic!("unexpected {other:?}"),
    }
    let legacy = obj(vec![("id", n(11)), ("method", s("execCommandApproval"))]);
    let meta = extract_message_metadata(&legacy);
    assert!(matches!(inbound_action(&legacy, &meta, false), InboundAction::AutoDecline { .. }));
    let note = obj(vec![("method", s("turn/started"))]);
    let meta = extract_message_metadata(&note);
    assert!(matches!(inbound_action(&note, &meta, true), InboundAction::Observe));
    let env = inbound_envelope(5, 99, meta, note);
    assert_eq!(env.seq, 5);
    assert_eq!(env.direction, Direction::Inbound);
    assert_eq!(env.kind, MsgKind::Notification);
}

#[test]
fn expired_requests_are_split_off_in_order() {
    let entries = vec![
        pending_entry("a".to_owned(), JsonRpcId::Number(1), "m", 0, 10),
        pending_entry("b".to_owned(), JsonRpcId::Number(2), "m", 5, 100),
        pending_entry("c".to_owned(), JsonRpcId::Text("x".to_owned()), "m", 20, 0),
    ];
    assert_eq!(entries[0].deadline_millis, 10);
    assert_eq!(entries[2].rpc_key, "s:x");
    assert_eq!(entries[0].rpc_key, "n:1");
    let (expired, kept) = split_expired(entries, 20);
    assert_eq!(expired.iter().map(|e| e.approval_id.as_str()).collect::<Vec<_>>(), vec!["a", "c"]);
    assert_eq!(kept.iter().map(|e| e.approval_id.as_str()).collect::<Vec<_>>(), vec!["b"]);
    let record: PendingServerRequest = pending_request_record(&kept[0], JsonValue::Null);
    assert_eq!(record.deadline_unix_ms, 105);
    assert_eq!(record.approval_id, "b");
}
