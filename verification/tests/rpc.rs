use coclai::errors::RpcError;
use coclai::events::MsgKind;
use coclai::json::{payload_summary, JsonNumber, JsonValue};
use coclai::rpc::{classify_message, extract_ids, map_rpc_error};

fn s(x: &str) -> JsonValue {
    JsonValue::String(x.to_owned())
}

fn number(n: i64) -> JsonValue {
    if n < 0 {
        JsonValue::Number(JsonNumber::NegInt(n))
    } else {
        JsonValue::Number(JsonNumber::PosInt(n as u64))
    }
}

fn obj(fields: Vec<(&str, JsonValue)>) -> JsonValue {
    JsonValue::Object(fields.into_iter().map(|(k, v)| (k.to_owned(), v)).collect())
}

#[test]
fn classify_response() {
    let v = obj(vec![("id", number(1)), ("result", obj(vec![]))]);
    assert_eq!(classify_message(&v), MsgKind::Response);
}

#[test]
fn classify_server_request() {
    let v = obj(vec![
        ("id", number(2)),
        ("method", s("item/fileChange/requestApproval")),
        ("params", obj(vec![])),
    ]);
    assert_eq!(classify_message(&v), MsgKind::ServerRequest);
}

#[test]
fn classify_notification() {
    let v = obj(vec![("method", s("turn/started")), ("params", obj(vec![]))]);
    assert_eq!(classify_message(&v), MsgKind::Notification);
}

#[test]
fn classify_unknown() {
    let v = obj(vec![("foo", s("bar"))]);
    assert_eq!(classify_message(&v), MsgKind::Unknown);
}

#[test]
fn classify_error_response_and_ambiguous_shapes() {
    let err = obj(vec![("id", number(3)), ("error", obj(vec![("code", number(-1))]))]);
    assert_eq!(classify_message(&err), MsgKind::Response);
    let both = obj(vec![("id", number(4)), ("method", s("m")), ("result", obj(vec![]))]);
    assert_eq!(classify_message(&both), MsgKind::Unknown);
    let id_only = obj(vec![("id", number(5))]);
    assert_eq!(classify_message(&id_only), MsgKind::Unknown);
}

#[test]
fn extract_ids_prefers_params() {
    let v = obj(vec![(
        "params",
        obj(vec![
            ("threadId", s("thr_1")),
            ("turnId", s("turn_1")),
            ("itemId", s("item_1")),
        ]),
    )]);
    let ids = extract_ids(&v);
    assert_eq!(ids.thread_id.as_deref(), Some("thr_1"));
    assert_eq!(ids.turn_id.as_deref(), Some("turn_1"));
    assert_eq!(ids.item_id.as_deref(), Some("item_1"));
}

#[test]
fn extract_ids_supports_nested_struct_ids() {
    let v = obj(vec![(
        "params",
        obj(vec![
            ("thread", obj(vec![("id", s("thr_nested"))])),
            ("turn", obj(vec![("id", s("turn_nested"))])),
            ("item", obj(vec![("id", s("item_nested"))])),
        ]),
    )]);
    let ids = extract_ids(&v);
    assert_eq!(ids.thread_id.as_deref(), Some("thr_nested"));
    assert_eq!(ids.turn_id.as_deref(), Some("turn_nested"));
    assert_eq!(ids.item_id.as_deref(), Some("item_nested"));
}

#[test]
fn extract_ids_ignores_legacy_conversation_id() {
    let v = obj(vec![("params", obj(vec![("conversationId", s("thr_conv"))]))]);
    let ids = extract_ids(&v);
    assert_eq!(ids.thread_id, None);
    assert_eq!(ids.turn_id, None);
    assert_eq!(ids.item_id, None);
}

#[test]
fn extract_ids_falls_back_to_result_then_error_data() {
    let v = obj(vec![
        ("id", number(7)),
        ("result", obj(vec![("thread", obj(vec![("id", s("thr_r"))]))])),
    ]);
    assert_eq!(extract_ids(&v).thread_id.as_deref(), Some("thr_r"));
    let e = obj(vec![
        ("id", number(8)),
        ("error", obj(vec![("data", obj(vec![("turnId", s("turn_e"))]))])),
    ]);
    assert_eq!(extract_ids(&e).turn_id.as_deref(), Some("turn_e"));
}

#[test]
fn map_overloaded_error() {
    let v = obj(vec![("code", number(-32001)), ("message", s("ingress overload"))]);
    assert!(matches!(map_rpc_error(&v), RpcError::Overloaded));
}

#[test]
fn map_rpc_error_covers_each_code() {
    let invalid = obj(vec![("code", number(-32600)), ("message", s("bad"))]);
    assert!(matches!(map_rpc_error(&invalid), RpcError::InvalidRequest(m) if m == "bad"));
    let missing = obj(vec![("code", number(-32601))]);
    assert!(matches!(map_rpc_error(&missing), RpcError::MethodNotFound(m) if m == "unknown rpc error"));
    let other = obj(vec![("code", number(-1)), ("message", s("boom")), ("data", s("d"))]);
    match map_rpc_error(&other) {
        RpcError::ServerError(o) => {
            assert_eq!(o.code, -1);
            assert_eq!(o.message, "boom");
            assert!(matches!(o.data, Some(JsonValue::String(ref d)) if d == "d"));
        }
        e => panic!("unexpected {e:?}"),
    }
    let no_code = obj(vec![("message", s("x"))]);
    assert!(matches!(map_rpc_error(&no_code), RpcError::InvalidRequest(m) if m == "invalid rpc error payload"));
}

#[test]
fn payload_summary_lists_sorted_keys_only() {
    let v = obj(vec![("thread", obj(vec![])), ("assistantText", s("secret-output"))]);
    assert_eq!(payload_summary(&v), "object(keys=[assistantText,thread])");
}
