use coclai::errors::RpcError;
use coclai::json::{JsonNumber, JsonValue};
use coclai::rpc_contract::methods;
use coclai::rpc_contract::{
    rpc_contract_descriptor, rpc_contract_descriptors, validate_rpc_request, validate_rpc_response,
    RpcRequestContract, RpcResponseContract, RpcValidationMode,
};

fn s(x: &str) -> JsonValue {
    JsonValue::String(x.to_owned())
}

fn num(n: u64) -> JsonValue {
    JsonValue::Number(JsonNumber::PosInt(n))
}

fn obj(fields: Vec<(&str, JsonValue)>) -> JsonValue {
    JsonValue::Object(fields.into_iter().map(|(k, v)| (k.to_owned(), v)).collect())
}

fn arr(items: Vec<JsonValue>) -> JsonValue {
    JsonValue::Array(items)
}

fn message(err: RpcError) -> String {
    match err {
        RpcError::InvalidRequest(m) => m,
        other => panic!("expected invalid request, got {other:?}"),
    }
}

const KNOWN_MODE: RpcValidationMode = RpcValidationMode::KnownMethods;

#[test]
fn rejects_empty_method() {
    let err = validate_rpc_request("", &obj(vec![]), KNOWN_MODE).expect_err("empty method must fail");
    assert!(matches!(err, RpcError::InvalidRequest(_)));
}

#[test]
fn validates_turn_interrupt_params_shape() {
    let err = validate_rpc_request("turn/interrupt", &obj(vec![("threadId", s("thr"))]), KNOWN_MODE)
        .expect_err("missing turnId must fail");
    assert!(matches!(err, RpcError::InvalidRequest(_)));
    validate_rpc_request(
        "turn/interrupt",
        &obj(vec![("threadId", s("thr")), ("turnId", s("turn"))]),
        KNOWN_MODE,
    )
    .expect("valid params");
}

#[test]
fn validates_thread_start_accepts_sandbox_policy_object() {
    validate_rpc_request(
        "thread/start",
        &obj(vec![("cwd", s("/tmp")), ("sandbox", obj(vec![("type", s("readOnly"))]))]),
        KNOWN_MODE,
    )
    .expect("thread/start should accept sandbox object");
}

#[test]
fn validates_thread_start_rejects_non_object_sandbox_policy() {
    let err = validate_rpc_request(
        "thread/start",
        &obj(vec![("cwd", s("/tmp")), ("sandbox", s("readOnly"))]),
        KNOWN_MODE,
    )
    .expect_err("thread/start must reject non-object sandbox");
    assert_eq!(
        message(err),
        "invalid json-rpc request for thread/start: params.sandbox must be an object; payload=object(keys=[cwd,sandbox])"
    );
}

#[test]
fn validates_thread_start_rejects_empty_sandbox_policy_type() {
    let err = validate_rpc_request(
        "thread/start",
        &obj(vec![("cwd", s("/tmp")), ("sandbox", obj(vec![("type", s("   "))]))]),
        KNOWN_MODE,
    )
    .expect_err("thread/start must reject empty sandbox.type");
    assert!(message(err).contains("params.sandbox.type must be a non-empty string"));
}

#[test]
fn validates_thread_start_response_thread_id() {
    let err = validate_rpc_response("thread/start", &obj(vec![("thread", obj(vec![]))]), KNOWN_MODE)
        .expect_err("missing thread id must fail");
    assert!(matches!(err, RpcError::InvalidRequest(_)));
    validate_rpc_response(
        "thread/start",
        &obj(vec![("thread", obj(vec![("id", s("thr_1"))]))]),
        KNOWN_MODE,
    )
    .expect("valid response");
}

#[test]
fn validates_turn_start_response_turn_id() {
    let err = validate_rpc_response("turn/start", &obj(vec![("turn", obj(vec![]))]), KNOWN_MODE)
        .expect_err("missing turn id must fail");
    assert!(matches!(err, RpcError::InvalidRequest(_)));
    validate_rpc_response("turn/start", &obj(vec![("turn", obj(vec![("id", s("turn_1"))]))]), KNOWN_MODE)
        .expect("valid response");
}

#[test]
fn validates_skills_list_response_shape() {
    let err = validate_rpc_response("skills/list", &obj(vec![("skills", arr(vec![]))]), KNOWN_MODE)
        .expect_err("missing result.data must fail");
    assert_eq!(
        message(err),
        "invalid json-rpc response for skills/list: result.data must be an array; payload=object(keys=[skills])"
    );
    validate_rpc_response("skills/list", &obj(vec![("data", arr(vec![]))]), KNOWN_MODE).expect("valid response");
}

#[test]
fn validates_command_exec_request_constraints() {
    let err = validate_rpc_request(
        "command/exec",
        &obj(vec![("command", arr(vec![s("bash")])), ("tty", JsonValue::Bool(true))]),
        KNOWN_MODE,
    )
    .expect_err("tty without processId must fail");
    assert!(message(err).contains("params.processId is required when tty or streaming is enabled"));

    let err = validate_rpc_request(
        "command/exec",
        &obj(vec![
            ("command", arr(vec![s("bash")])),
            ("disableTimeout", JsonValue::Bool(true)),
            ("timeoutMs", num(1)),
        ]),
        KNOWN_MODE,
    )
    .expect_err("disableTimeout + timeoutMs must fail");
    assert!(message(err).contains("params.disableTimeout cannot be combined with params.timeoutMs"));

    validate_rpc_request(
        "command/exec",
        &obj(vec![
            ("command", arr(vec![s("bash")])),
            ("processId", s("proc-1")),
            ("tty", JsonValue::Bool(true)),
        ]),
        KNOWN_MODE,
    )
    .expect("tty with processId should pass");
}

#[test]
fn command_exec_request_reports_each_rule() {
    let cases: Vec<(JsonValue, &str)> = vec![
        (s("x"), "params must be an object"),
        (obj(vec![]), "params.command must be an array"),
        (obj(vec![("command", arr(vec![]))]), "params.command must not be empty"),
        (obj(vec![("command", arr(vec![num(1)]))]), "params.command items must be strings"),
        (obj(vec![("command", arr(vec![s("ls")])), ("processId", s(" "))]), "params.processId must be a non-empty string"),
        (obj(vec![("command", arr(vec![s("ls")])), ("processId", num(3))]), "params.processId must be a string"),
        (
            obj(vec![("command", arr(vec![s("ls")])), ("disableOutputCap", JsonValue::Bool(true)), ("outputBytesCap", num(5))]),
            "params.disableOutputCap cannot be combined with params.outputBytesCap",
        ),
        (
            obj(vec![("command", arr(vec![s("ls")])), ("timeoutMs", JsonValue::Number(JsonNumber::NegInt(-5)))]),
            "params.timeoutMs must be >= 0",
        ),
        (obj(vec![("command", arr(vec![s("ls")])), ("outputBytesCap", num(0))]), "params.outputBytesCap must be > 0"),
        (
            obj(vec![("command", arr(vec![s("ls")])), ("size", obj(vec![("rows", num(1)), ("cols", num(1))]))]),
            "params.size is only valid when params.tty is true",
        ),
        (
            obj(vec![
                ("command", arr(vec![s("ls")])),
                ("tty", JsonValue::Bool(true)),
                ("processId", s("p")),
                ("size", obj(vec![("rows", num(0)), ("cols", num(1))])),
            ]),
            "params.size.rows must be > 0",
        ),
        (
            obj(vec![("command", arr(vec![s("ls")])), ("sandboxPolicy", obj(vec![]))]),
            "params.sandboxPolicy.type must be a non-empty string",
        ),
    ];
    for (params, reason) in cases {
        let err = validate_rpc_request("command/exec", &params, KNOWN_MODE).expect_err(reason);
        let m = message(err);
        assert!(m.starts_with("invalid json-rpc request for command/exec: "), "{m}");
        assert!(m.contains(reason), "{m} should mention {reason}");
    }
}

#[test]
fn command_exec_write_and_resize_rules() {
    let err = validate_rpc_request("command/exec/write", &obj(vec![("processId", s("p"))]), KNOWN_MODE)
        .expect_err("nothing to do");
    assert!(message(err).contains("params must include deltaBase64, closeStdin, or both"));
    validate_rpc_request(
        "command/exec/write",
        &obj(vec![("processId", s("p")), ("closeStdin", JsonValue::Bool(true))]),
        KNOWN_MODE,
    )
    .expect("close only is fine");
    let err = validate_rpc_request("command/exec/resize", &obj(vec![("processId", s("p"))]), KNOWN_MODE)
        .expect_err("size missing");
    assert!(message(err).contains("params.size must be an object"));
    validate_rpc_request(
        "command/exec/resize",
        &obj(vec![("processId", s("p")), ("size", obj(vec![("rows", num(24)), ("cols", num(80))]))]),
        KNOWN_MODE,
    )
    .expect("valid resize");
}

#[test]
fn validates_command_exec_response_shape() {
    let err = validate_rpc_response(
        "command/exec",
        &obj(vec![("exitCode", num(0)), ("stdout", s("ok"))]),
        KNOWN_MODE,
    )
    .expect_err("stderr missing must fail");
    assert!(message(err).contains("result.stderr must be a string"));
    validate_rpc_response(
        "command/exec",
        &obj(vec![("exitCode", num(0)), ("stdout", s("ok")), ("stderr", s(""))]),
        KNOWN_MODE,
    )
    .expect("valid command exec response");
    let err = validate_rpc_response(
        "command/exec",
        &obj(vec![("exitCode", num(1u64 << 40)), ("stdout", s("")), ("stderr", s(""))]),
        KNOWN_MODE,
    )
    .expect_err("exit code out of i32 range");
    assert!(message(err).contains("result.exitCode must be an i32-compatible integer"));
}

#[test]
fn passes_unknown_method_in_known_mode() {
    validate_rpc_request("echo/custom", &obj(vec![("k", s("v"))]), KNOWN_MODE)
        .expect("unknown method request should pass");
    validate_rpc_response("echo/custom", &obj(vec![("ok", JsonValue::Bool(true))]), KNOWN_MODE)
        .expect("unknown method response should pass");
}

#[test]
fn known_method_catalog_is_stable() {
    assert_eq!(
        methods::KNOWN,
        [
            methods::THREAD_START,
            methods::THREAD_RESUME,
            methods::THREAD_FORK,
            methods::THREAD_ARCHIVE,
            methods::THREAD_READ,
            methods::THREAD_LIST,
            methods::THREAD_LOADED_LIST,
            methods::THREAD_ROLLBACK,
            methods::SKILLS_LIST,
            methods::COMMAND_EXEC,
            methods::COMMAND_EXEC_WRITE,
            methods::COMMAND_EXEC_TERMINATE,
            methods::COMMAND_EXEC_RESIZE,
            methods::TURN_START,
            methods::TURN_INTERRUPT,
        ]
    );
}

#[test]
fn descriptor_catalog_matches_known_method_catalog() {
    let descriptor_methods: Vec<&'static str> =
        rpc_contract_descriptors().iter().map(|descriptor| descriptor.method).collect();
    assert_eq!(descriptor_methods, methods::KNOWN);
}

#[test]
fn default_validation_mode_is_known_methods() {
    assert_eq!(RpcValidationMode::default(), RpcValidationMode::KnownMethods);
}

#[test]
fn descriptor_lookup_gives_each_methods_contract() {
    let d = rpc_contract_descriptor("turn/interrupt").expect("known");
    assert_eq!(d.request, RpcRequestContract::ThreadIdAndTurnId);
    assert_eq!(d.response, RpcResponseContract::Object);
    let d = rpc_contract_descriptor("command/exec").expect("known");
    assert_eq!(d.request, RpcRequestContract::CommandExec);
    assert_eq!(d.response, RpcResponseContract::CommandExec);
    assert!(rpc_contract_descriptor("echo/custom").is_none());
    for m in methods::KNOWN {
        assert_eq!(rpc_contract_descriptor(m).expect("every known method has a contract").method, m);
    }
}

#[test]
fn skips_validation_in_none_mode() {
    validate_rpc_request("", &JsonValue::Null, RpcValidationMode::NoChecks).expect_err("empty method must still fail");
    validate_rpc_request("turn/start", &JsonValue::Null, RpcValidationMode::NoChecks)
        .expect("none mode skips params shape");
    validate_rpc_response("turn/start", &JsonValue::Null, RpcValidationMode::NoChecks)
        .expect("none mode skips result shape");
}

#[test]
fn blank_method_message_is_fixed() {
    let err = validate_rpc_request("   ", &JsonValue::Null, KNOWN_MODE).expect_err("blank");
    assert_eq!(message(err), "json-rpc method must not be empty");
}

#[test]
fn invalid_request_error_redacts_payload_values() {
    let err = validate_rpc_request(
        "turn/interrupt",
        &obj(vec![("threadId", s("thr_sensitive")), ("secret", s("token-123"))]),
        KNOWN_MODE,
    )
    .expect_err("missing turnId must fail");
    let message = message(err);
    assert!(message.contains("invalid json-rpc request for turn/interrupt"));
    assert!(message.contains("params.turnId must be a non-empty string"));
    assert!(message.contains("payload=object(keys=[secret,threadId])"));
    assert!(!message.contains("token-123"));
    assert!(!message.contains("thr_sensitive"));
}

#[test]
fn invalid_response_error_redacts_payload_values() {
    let err = validate_rpc_response(
        "thread/start",
        &obj(vec![("thread", obj(vec![])), ("secret", obj(vec![("token", s("abc"))]))]),
        KNOWN_MODE,
    )
    .expect_err("missing thread id must fail");
    let message = message(err);
    assert!(message.contains("invalid json-rpc response for thread/start"));
    assert!(message.contains("result is missing thread id"));
    assert!(message.contains("payload=object(keys=[secret,thread])"));
    assert!(!message.contains("abc"));
}

#[test]
fn rejects_response_scalar_id_fallback() {
    let err = validate_rpc_response("thread/start", &s("thr_scalar"), KNOWN_MODE)
        .expect_err("scalar id fallback must not be accepted");
    assert_eq!(
        message(err),
        "invalid json-rpc response for thread/start: result is missing thread id; payload=string(len=10)"
    );
}

#[test]
fn object_result_rule_uses_request_wording() {
    let err = validate_rpc_response("thread/archive", &arr(vec![num(1), num(2)]), KNOWN_MODE).expect_err("array");
    assert_eq!(
        message(err),
        "invalid json-rpc request for thread/archive: result must be an object; payload=array(len=2)"
    );
}
