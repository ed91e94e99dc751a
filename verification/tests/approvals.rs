use coclai::approvals::{
    is_known_server_request_method, jsonrpc_id_to_value, jsonrpc_state_key, route_server_request,
    timeout_error_payload, timeout_reply, timeout_result_payload, validate_server_request_result_payload,
    ServerRequestConfig, ServerRequestRoute, TimeoutAction, TimeoutReply,
};
use coclai::errors::RuntimeError;
use coclai::events::JsonRpcId;
use coclai::json::{JsonNumber, JsonValue};

fn s(x: &str) -> JsonValue {
    JsonValue::String(x.to_owned())
}

fn obj(fields: Vec<(&str, JsonValue)>) -> JsonValue {
    JsonValue::Object(fields.into_iter().map(|(k, v)| (k.to_owned(), v)).collect())
}

fn internal(r: Result<(), RuntimeError>) -> String {
    match r {
        Err(RuntimeError::Internal(m)) => m,
        other => panic!("expected internal error, got {other:?}"),
    }
}

#[test]
fn routes_known_method_to_queue() {
    assert_eq!(route_server_request("item/fileChange/requestApproval", true), ServerRequestRoute::Queue);
}

#[test]
fn routes_known_dynamic_tool_call_method_to_queue() {
    assert_eq!(route_server_request("item/tool/call", true), ServerRequestRoute::Queue);
}

#[test]
fn routes_known_auth_refresh_method_to_queue() {
    assert_eq!(route_server_request("account/chatgptAuthTokens/refresh", true), ServerRequestRoute::Queue);
}

#[test]
fn routes_unknown_method_to_auto_decline_when_enabled() {
    assert_eq!(route_server_request("item/unknown/requestApproval", true), ServerRequestRoute::AutoDecline);
}

#[test]
fn routes_unknown_method_to_queue_when_auto_decline_disabled() {
    assert_eq!(route_server_request("item/unknown/requestApproval", false), ServerRequestRoute::Queue);
}

#[test]
fn routes_legacy_method_to_auto_decline_even_when_unknown_queue_enabled() {
    assert_eq!(route_server_request("applyPatchApproval", false), ServerRequestRoute::AutoDecline);
    assert_eq!(route_server_request("execCommandApproval", true), ServerRequestRoute::AutoDecline);
}

#[test]
fn known_methods_are_exactly_five() {
    for m in [
        "item/commandExecution/requestApproval",
        "item/fileChange/requestApproval",
        "item/tool/requestUserInput",
        "item/tool/call",
        "account/chatgptAuthTokens/refresh",
    ] {
        assert!(is_known_server_request_method(m));
    }
    assert!(!is_known_server_request_method("applyPatchApproval"));
}

#[test]
fn server_request_config_defaults() {
    let c = ServerRequestConfig::default();
    assert_eq!(c.default_timeout_ms, 30_000);
    assert_eq!(c.on_timeout, TimeoutAction::Decline);
    assert!(c.auto_decline_unknown);
}

#[test]
fn approval_answers_need_a_decision() {
    let m = "item/commandExecution/requestApproval";
    assert!(validate_server_request_result_payload(m, &obj(vec![("decision", s("accept"))])).is_ok());
    assert!(validate_server_request_result_payload(m, &obj(vec![("decision", obj(vec![("x", s("y"))]))])).is_ok());
    assert_eq!(
        internal(validate_server_request_result_payload(m, &obj(vec![("decision", obj(vec![]))]))),
        "invalid approval payload for item/commandExecution/requestApproval: missing decision"
    );
}

#[test]
fn user_input_tool_call_and_auth_answers_are_checked() {
    assert_eq!(
        internal(validate_server_request_result_payload("item/tool/requestUserInput", &s("x"))),
        "invalid requestUserInput payload: expected object"
    );
    assert_eq!(
        internal(validate_server_request_result_payload("item/tool/call", &obj(vec![("success", JsonValue::Bool(true))]))),
        "invalid dynamic tool call payload: missing contentItems array"
    );
    let auth = "account/chatgptAuthTokens/refresh";
    assert_eq!(
        internal(validate_server_request_result_payload(auth, &obj(vec![("accessToken", s("t"))]))),
        "invalid auth refresh payload: missing chatgptAccountId"
    );
    assert_eq!(
        internal(validate_server_request_result_payload(
            auth,
            &obj(vec![("accessToken", s("t")), ("chatgptAccountId", s("a")), ("chatgptPlanType", JsonValue::Bool(true))])
        )),
        "invalid auth refresh payload: chatgptPlanType must be string|null"
    );
    assert!(validate_server_request_result_payload(
        auth,
        &obj(vec![("accessToken", s("t")), ("chatgptAccountId", s("a")), ("chatgptPlanType", JsonValue::Null)])
    )
    .is_ok());
    assert!(validate_server_request_result_payload("other/method", &JsonValue::Null).is_ok());
}

#[test]
fn timeout_payloads_pass_the_answer_check() {
    for m in ["item/commandExecution/requestApproval", "item/fileChange/requestApproval", "item/tool/requestUserInput", "item/tool/call", "x/y"] {
        for cancel in [false, true] {
            let p = timeout_result_payload(m, cancel);
            assert!(validate_server_request_result_payload(m, &p).is_ok(), "{m} {cancel}");
        }
    }
    match timeout_result_payload("item/fileChange/requestApproval", true) {
        JsonValue::Object(f) => {
            assert_eq!(f[0].0, "decision");
            assert!(matches!(&f[0].1, JsonValue::String(d) if d == "cancel"));
        }
        other => panic!("unexpected {other:?}"),
    }
}

#[test]
fn timeout_replies_follow_the_policy() {
    assert!(matches!(timeout_reply("account/chatgptAuthTokens/refresh", TimeoutAction::Decline), TimeoutReply::Error(_)));
    assert!(matches!(timeout_reply("item/tool/call", TimeoutAction::Error), TimeoutReply::Error(_)));
    assert!(matches!(timeout_reply("item/tool/call", TimeoutAction::Cancel), TimeoutReply::Result(_)));
    match timeout_error_payload("item/tool/call") {
        JsonValue::Object(f) => {
            assert_eq!(f[0].0, "code");
            assert!(matches!(f[0].1, JsonValue::Number(JsonNumber::NegInt(-32000))));
            assert!(matches!(&f[1].1, JsonValue::String(m) if m == "server request timed out"));
        }
        other => panic!("unexpected {other:?}"),
    }
}

#[test]
fn request_id_keys_and_values() {
    assert_eq!(jsonrpc_state_key(&JsonRpcId::Number(42)), "n:42");
    assert_eq!(jsonrpc_state_key(&JsonRpcId::Text("abc".to_owned())), "s:abc");
    assert!(matches!(jsonrpc_id_to_value(&JsonRpcId::Number(7)), JsonValue::Number(JsonNumber::PosInt(7))));
    assert!(matches!(jsonrpc_id_to_value(&JsonRpcId::Text("q".to_owned())), JsonValue::String(t) if t == "q"));
}
