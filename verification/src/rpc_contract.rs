//! Shape contracts of the app-server JSON-RPC methods: which request and
//! response shapes each known method must have, and the checks that enforce
//! them with value-redacting error messages.
use vstd::prelude::*;
use crate::api_types::{sandbox_wire_error, summarize_sandbox_policy_wire_value};
use crate::errors::{is_invalid_request_with, RpcError};
use crate::json::{
    get_bool, get_opt, non_blank_str, opt_str_view, opt_string, payload_summary, spec_as_i64,
    spec_as_str, spec_as_u64, spec_get, spec_get_bool, spec_get_opt, spec_non_blank_str,
    spec_payload_summary, JsonValue,
};
use crate::text::{is_blank, is_ws, owned, push_str, str_eq, str_is_blank, trim_end, trim_start};

pub mod methods;

verus! {

/// How much of a JSON-RPC exchange is checked.
#[derive(Clone, Copy, Debug, PartialEq, Eq, Structural)]
pub enum RpcValidationMode {
    /// Only the method name is checked.
    NoChecks,
    /// Known methods are also held to their request and response shapes.
    KnownMethods,
}

impl Default for RpcValidationMode {
    fn default() -> (m: Self)
        ensures
            m == RpcValidationMode::KnownMethods,
    {
        RpcValidationMode::KnownMethods
    }
}

/// Request-shape rule of one method.
#[derive(Clone, Copy, Debug, PartialEq, Eq, Structural)]
pub enum RpcRequestContract {
    Object,
    ThreadStart,
    ThreadId,
    ThreadIdAndTurnId,
    ProcessId,
    CommandExec,
    CommandExecWrite,
    CommandExecResize,
}

/// Response-shape rule of one method.
#[derive(Clone, Copy, Debug, PartialEq, Eq, Structural)]
pub enum RpcResponseContract {
    Object,
    ThreadId,
    TurnId,
    DataArray,
    CommandExec,
}

/// The request and response rules of one method.
#[derive(Clone, Copy, Debug, PartialEq, Eq)]
pub struct RpcContractDescriptor {
    pub method: &'static str,
    pub request: RpcRequestContract,
    pub response: RpcResponseContract,
}

/// A descriptor as plain values.
pub open spec fn descriptor_view(d: RpcContractDescriptor) -> (Seq<char>, RpcRequestContract, RpcResponseContract) {
    (d.method@, d.request, d.response)
}

/// Descriptors as plain values.
pub open spec fn descriptor_views(ds: Seq<RpcContractDescriptor>) -> Seq<(Seq<char>, RpcRequestContract, RpcResponseContract)> {
    ds.map_values(|d: RpcContractDescriptor| descriptor_view(d))
}

/// The known methods, in catalog order.
pub open spec fn spec_known_methods() -> Seq<Seq<char>> {
    seq![
        "thread/start"@,
        "thread/resume"@,
        "thread/fork"@,
        "thread/archive"@,
        "thread/read"@,
        "thread/list"@,
        "thread/loaded/list"@,
        "thread/rollback"@,
        "skills/list"@,
        "command/exec"@,
        "command/exec/write"@,
        "command/exec/terminate"@,
        "command/exec/resize"@,
        "turn/start"@,
        "turn/interrupt"@,
    ]
}

/// The contract of each known method, in catalog order.
pub open spec fn spec_descriptor_table() -> Seq<(Seq<char>, RpcRequestContract, RpcResponseContract)> {
    seq![
        ("thread/start"@, RpcRequestContract::ThreadStart, RpcResponseContract::ThreadId),
        ("thread/resume"@, RpcRequestContract::ThreadId, RpcResponseContract::ThreadId),
        ("thread/fork"@, RpcRequestContract::ThreadId, RpcResponseContract::ThreadId),
        ("thread/archive"@, RpcRequestContract::ThreadId, RpcResponseContract::Object),
        ("thread/read"@, RpcRequestContract::ThreadId, RpcResponseContract::ThreadId),
        ("thread/list"@, RpcRequestContract::Object, RpcResponseContract::DataArray),
        ("thread/loaded/list"@, RpcRequestContract::Object, RpcResponseContract::DataArray),
        ("thread/rollback"@, RpcRequestContract::ThreadId, RpcResponseContract::ThreadId),
        ("skills/list"@, RpcRequestContract::Object, RpcResponseContract::DataArray),
        ("command/exec"@, RpcRequestContract::CommandExec, RpcResponseContract::CommandExec),
        ("command/exec/write"@, RpcRequestContract::CommandExecWrite, RpcResponseContract::Object),
        ("command/exec/terminate"@, RpcRequestContract::ProcessId, RpcResponseContract::Object),
        ("command/exec/resize"@, RpcRequestContract::CommandExecResize, RpcResponseContract::Object),
        ("turn/start"@, RpcRequestContract::ThreadId, RpcResponseContract::TurnId),
        ("turn/interrupt"@, RpcRequestContract::ThreadIdAndTurnId, RpcResponseContract::Object),
    ]
}

/// The first entry of `table` for `method`.
pub open spec fn lookup_contract(
    table: Seq<(Seq<char>, RpcRequestContract, RpcResponseContract)>,
    method: Seq<char>,
) -> Option<(RpcRequestContract, RpcResponseContract)>
    decreases table.len(),
{
    if table.len() == 0 {
        None
    } else if table[0].0 == method {
        Some((table[0].1, table[0].2))
    } else {
        lookup_contract(table.drop_first(), method)
    }
}

/// The contract of `method`, when it is known.
pub open spec fn spec_contract(method: Seq<char>) -> Option<(RpcRequestContract, RpcResponseContract)> {
    lookup_contract(spec_descriptor_table(), method)
}

/// All method descriptors, in catalog order.
pub fn rpc_contract_descriptors() -> (r: Vec<RpcContractDescriptor>)
    ensures
        descriptor_views(r@) == spec_descriptor_table(),
{
    let mut v: Vec<RpcContractDescriptor> = Vec::new();
    v.push(RpcContractDescriptor { method: methods::THREAD_START, request: RpcRequestContract::ThreadStart, response: RpcResponseContract::ThreadId });
    v.push(RpcContractDescriptor { method: methods::THREAD_RESUME, request: RpcRequestContract::ThreadId, response: RpcResponseContract::ThreadId });
    v.push(RpcContractDescriptor { method: methods::THREAD_FORK, request: RpcRequestContract::ThreadId, response: RpcResponseContract::ThreadId });
    v.push(RpcContractDescriptor { method: methods::THREAD_ARCHIVE, request: RpcRequestContract::ThreadId, response: RpcResponseContract::Object });
    v.push(RpcContractDescriptor { method: methods::THREAD_READ, request: RpcRequestContract::ThreadId, response: RpcResponseContract::ThreadId });
    v.push(RpcContractDescriptor { method: methods::THREAD_LIST, request: RpcRequestContract::Object, response: RpcResponseContract::DataArray });
    v.push(RpcContractDescriptor { method: methods::THREAD_LOADED_LIST, request: RpcRequestContract::Object, response: RpcResponseContract::DataArray });
    v.push(RpcContractDescriptor { method: methods::THREAD_ROLLBACK, request: RpcRequestContract::ThreadId, response: RpcResponseContract::ThreadId });
    v.push(RpcContractDescriptor { method: methods::SKILLS_LIST, request: RpcRequestContract::Object, response: RpcResponseContract::DataArray });
    v.push(RpcContractDescriptor { method: methods::COMMAND_EXEC, request: RpcRequestContract::CommandExec, response: RpcResponseContract::CommandExec });
    v.push(RpcContractDescriptor { method: methods::COMMAND_EXEC_WRITE, request: RpcRequestContract::CommandExecWrite, response: RpcResponseContract::Object });
    v.push(RpcContractDescriptor { method: methods::COMMAND_EXEC_TERMINATE, request: RpcRequestContract::ProcessId, response: RpcResponseContract::Object });
    v.push(RpcContractDescriptor { method: methods::COMMAND_EXEC_RESIZE, request: RpcRequestContract::CommandExecResize, response: RpcResponseContract::Object });
    v.push(RpcContractDescriptor { method: methods::TURN_START, request: RpcRequestContract::ThreadId, response: RpcResponseContract::TurnId });
    v.push(RpcContractDescriptor { method: methods::TURN_INTERRUPT, request: RpcRequestContract::ThreadIdAndTurnId, response: RpcResponseContract::Object });
    assert(descriptor_views(v@) =~= spec_descriptor_table());
    v
}

/// The descriptor of `method`, when the method is known.
pub fn rpc_contract_descriptor(method: &str) -> (r: Option<RpcContractDescriptor>)
    ensures
        r is None ==> spec_contract(method@) is None,
        r matches Some(d) ==> d.method@ == method@ && spec_contract(method@) == Some((d.request, d.response)),
{
    let table = rpc_contract_descriptors();
    let ghost views = descriptor_views(table@);
    let mut i: usize = 0;
    assert(views.skip(0) =~= views);
    while i < table.len()
        invariant
            i <= table.len(),
            views == descriptor_views(table@),
            views == spec_descriptor_table(),
            spec_contract(method@) == lookup_contract(views.skip(i as int), method@),
        decreases table.len() - i,
    {
        assert(views.skip(i as int)[0] == descriptor_view(table@[i as int]));
        assert(views.skip(i as int).drop_first() =~= views.skip(i + 1 as int));
        if str_eq(table[i].method, method) {
            return Some(table[i]);
        }
        i += 1;
    }
    None
}

/// Message of a refused request (or of a result that is not an object).
pub open spec fn request_msg(method: Seq<char>, reason: Seq<char>, payload: JsonValue) -> Seq<char> {
    "invalid json-rpc request for "@ + method + ": "@ + reason + "; payload="@ + spec_payload_summary(payload)
}

/// Message of a refused response.
pub open spec fn response_msg(method: Seq<char>, reason: Seq<char>, payload: JsonValue) -> Seq<char> {
    "invalid json-rpc response for "@ + method + ": "@ + reason + "; payload="@ + spec_payload_summary(payload)
}

/// `r` is success when `e` is `None`, else the invalid-request error `e`.
pub open spec fn outcome(r: Result<(), RpcError>, e: Option<Seq<char>>) -> bool {
    match e {
        None => r is Ok,
        Some(m) => r matches Err(x) && is_invalid_request_with(x, m),
    }
}

/// The first of two checks that fails.
pub open spec fn first_err(a: Option<Seq<char>>, b: Option<Seq<char>>) -> Option<Seq<char>> {
    if a is Some { a } else { b }
}

/// `field` must be an object.
pub open spec fn object_error(v: JsonValue, method: Seq<char>, field_name: Seq<char>) -> Option<Seq<char>> {
    if v is Object { None } else { Some(request_msg(method, field_name + " must be an object"@, v)) }
}

/// `field.key` must be a non-blank string.
pub open spec fn string_field_error(v: JsonValue, method: Seq<char>, key: Seq<char>, field_name: Seq<char>) -> Option<Seq<char>> {
    if !(v is Object) {
        Some(request_msg(method, field_name + " must be an object"@, v))
    } else if spec_non_blank_str(spec_get(v, key)) {
        None
    } else {
        Some(request_msg(method, field_name + "."@ + key + " must be a non-empty string"@, v))
    }
}

/// `thread/start` params: an object whose `sandbox`, when present, is a
/// valid sandbox policy.
pub open spec fn thread_start_error(p: JsonValue, method: Seq<char>) -> Option<Seq<char>> {
    if !(p is Object) {
        Some(request_msg(method, "params must be an object"@, p))
    } else {
        match spec_get(p, "sandbox"@) {
            Some(sp) => match sandbox_wire_error(sp, "params.sandbox"@) {
                Some(reason) => Some(request_msg(method, reason, p)),
                None => None,
            },
            None => None,
        }
    }
}

/// A terminal size: an object with positive `rows` and `cols`.
pub open spec fn size_error(size: JsonValue, method: Seq<char>, payload: JsonValue) -> Option<Seq<char>> {
    if !(size is Object) {
        Some(request_msg(method, "params.size must be an object"@, payload))
    } else if spec_as_u64(spec_get(size, "rows"@)).unwrap_or(0) == 0 {
        Some(request_msg(method, "params.size.rows must be > 0"@, payload))
    } else if spec_as_u64(spec_get(size, "cols"@)).unwrap_or(0) == 0 {
        Some(request_msg(method, "params.size.cols must be > 0"@, payload))
    } else {
        None
    }
}

/// Why an optional member `key` is refused: present but not a string, or
/// a blank string.
pub open spec fn optional_string_error(p: JsonValue, key: Seq<char>) -> Option<Seq<char>> {
    match spec_get(p, key) {
        Some(JsonValue::String(t)) => if is_blank(t@) { Some("params."@ + key + " must be a non-empty string"@) } else { None },
        Some(_) => Some("params."@ + key + " must be a string"@),
        None => None,
    }
}

/// Every item is a string value.
pub open spec fn all_strings(items: Seq<JsonValue>) -> bool {
    forall|i: int| 0 <= i < items.len() ==> (#[trigger] items[i]) is String
}

/// `command/exec` params, checked in this order: `command` is a non-empty
/// array of strings; `processId`, when present, is a non-blank string and
/// is present when a tty or streaming is asked for; output-cap and timeout
/// switches are not combined with their limits; limits are in range; a
/// `size` comes only with a tty and is valid; `sandboxPolicy` is valid.
pub open spec fn command_exec_error(p: JsonValue, method: Seq<char>) -> Option<Seq<char>> {
    let tty = spec_get_bool(p, "tty"@);
    let streaming = tty || spec_get_bool(p, "streamStdin"@) || spec_get_bool(p, "streamStdoutStderr"@);
    if !(p is Object) {
        Some(request_msg(method, "params must be an object"@, p))
    } else if !(spec_get(p, "command"@) matches Some(JsonValue::Array(_))) {
        Some(request_msg(method, "params.command must be an array"@, p))
    } else if spec_get(p, "command"@)->0->Array_0@.len() == 0 {
        Some(request_msg(method, "params.command must not be empty"@, p))
    } else if !all_strings(spec_get(p, "command"@)->0->Array_0@) {
        Some(request_msg(method, "params.command items must be strings"@, p))
    } else if optional_string_error(p, "processId"@) is Some {
        Some(request_msg(method, optional_string_error(p, "processId"@)->0, p))
    } else if streaming && spec_get(p, "processId"@) is None {
        Some(request_msg(method, "params.processId is required when tty or streaming is enabled"@, p))
    } else if spec_get_bool(p, "disableOutputCap"@) && spec_get(p, "outputBytesCap"@) is Some {
        Some(request_msg(method, "params.disableOutputCap cannot be combined with params.outputBytesCap"@, p))
    } else if spec_get_bool(p, "disableTimeout"@) && spec_get(p, "timeoutMs"@) is Some {
        Some(request_msg(method, "params.disableTimeout cannot be combined with params.timeoutMs"@, p))
    } else if spec_as_i64(spec_get(p, "timeoutMs"@)) matches Some(t) && t < 0 {
        Some(request_msg(method, "params.timeoutMs must be >= 0"@, p))
    } else if spec_as_u64(spec_get(p, "outputBytesCap"@)) == Some(0u64) {
        Some(request_msg(method, "params.outputBytesCap must be > 0"@, p))
    } else if spec_get(p, "size"@) is Some && !tty {
        Some(request_msg(method, "params.size is only valid when params.tty is true"@, p))
    } else if spec_get(p, "size"@) is Some && size_error(spec_get(p, "size"@)->0, method, p) is Some {
        size_error(spec_get(p, "size"@)->0, method, p)
    } else {
        match spec_get(p, "sandboxPolicy"@) {
            Some(sp) => match sandbox_wire_error(sp, "params.sandboxPolicy"@) {
                Some(reason) => Some(request_msg(method, reason, p)),
                None => None,
            },
            None => None,
        }
    }
}

/// `command/exec/write` params: a process id and something to do.
pub open spec fn command_exec_write_error(p: JsonValue, method: Seq<char>) -> Option<Seq<char>> {
    if string_field_error(p, method, "processId"@, "params"@) is Some {
        string_field_error(p, method, "processId"@, "params"@)
    } else if spec_as_str(spec_get(p, "deltaBase64"@)) is None && !spec_get_bool(p, "closeStdin"@) {
        Some(request_msg(method, "params must include deltaBase64, closeStdin, or both"@, p))
    } else {
        None
    }
}

/// `command/exec/resize` params: a process id and a valid size.
pub open spec fn command_exec_resize_error(p: JsonValue, method: Seq<char>) -> Option<Seq<char>> {
    if string_field_error(p, method, "processId"@, "params"@) is Some {
        string_field_error(p, method, "processId"@, "params"@)
    } else {
        match spec_get(p, "size"@) {
            None => Some(request_msg(method, "params.size must be an object"@, p)),
            Some(size) => size_error(size, method, p),
        }
    }
}

/// The request rule `c` applied to `p`.
pub open spec fn request_rule_error(c: RpcRequestContract, p: JsonValue, method: Seq<char>) -> Option<Seq<char>> {
    match c {
        RpcRequestContract::Object => object_error(p, method, "params"@),
        RpcRequestContract::ThreadStart => thread_start_error(p, method),
        RpcRequestContract::ThreadId => string_field_error(p, method, "threadId"@, "params"@),
        RpcRequestContract::ThreadIdAndTurnId => first_err(
            string_field_error(p, method, "threadId"@, "params"@),
            string_field_error(p, method, "turnId"@, "params"@),
        ),
        RpcRequestContract::ProcessId => string_field_error(p, method, "processId"@, "params"@),
        RpcRequestContract::CommandExec => command_exec_error(p, method),
        RpcRequestContract::CommandExecWrite => command_exec_write_error(p, method),
        RpcRequestContract::CommandExecResize => command_exec_resize_error(p, method),
    }
}

/// The id at `/thread/id`, `threadId` or `id` of an object result.
pub open spec fn result_thread_id(v: JsonValue) -> Option<Seq<char>> {
    if spec_as_str(spec_get_opt(spec_get(v, "thread"@), "id"@)) is Some {
        spec_as_str(spec_get_opt(spec_get(v, "thread"@), "id"@))
    } else if spec_as_str(spec_get(v, "threadId"@)) is Some {
        spec_as_str(spec_get(v, "threadId"@))
    } else {
        spec_as_str(spec_get(v, "id"@))
    }
}

/// The id at `/turn/id`, `turnId` or `id` of an object result.
pub open spec fn result_turn_id(v: JsonValue) -> Option<Seq<char>> {
    if spec_as_str(spec_get_opt(spec_get(v, "turn"@), "id"@)) is Some {
        spec_as_str(spec_get_opt(spec_get(v, "turn"@), "id"@))
    } else if spec_as_str(spec_get(v, "turnId"@)) is Some {
        spec_as_str(spec_get(v, "turnId"@))
    } else {
        spec_as_str(spec_get(v, "id"@))
    }
}

/// `command/exec` result: an object with an `i32` `exitCode` and string
/// `stdout` and `stderr`.
pub open spec fn command_exec_response_error(r: JsonValue, method: Seq<char>) -> Option<Seq<char>> {
    if !(r is Object) {
        Some(request_msg(method, "result must be an object"@, r))
    } else if !(spec_as_i64(spec_get(r, "exitCode"@)) matches Some(c) && i32::MIN <= c <= i32::MAX) {
        Some(response_msg(method, "result.exitCode must be an i32-compatible integer"@, r))
    } else if spec_as_str(spec_get(r, "stdout"@)) is None {
        Some(response_msg(method, "result.stdout must be a string"@, r))
    } else if spec_as_str(spec_get(r, "stderr"@)) is None {
        Some(response_msg(method, "result.stderr must be a string"@, r))
    } else {
        None
    }
}

/// The response rule `c` applied to `r`.
pub open spec fn response_rule_error(c: RpcResponseContract, r: JsonValue, method: Seq<char>) -> Option<Seq<char>> {
    match c {
        RpcResponseContract::Object => object_error(r, method, "result"@),
        RpcResponseContract::ThreadId => if result_thread_id(r) is None {
            Some(response_msg(method, "result is missing thread id"@, r))
        } else {
            None
        },
        RpcResponseContract::TurnId => if result_turn_id(r) is None {
            Some(response_msg(method, "result is missing turn id"@, r))
        } else {
            None
        },
        RpcResponseContract::DataArray => if !(r is Object) {
            Some(request_msg(method, "result must be an object"@, r))
        } else if spec_get(r, "data"@) matches Some(JsonValue::Array(_)) {
            None
        } else {
            Some(response_msg(method, "result.data must be an array"@, r))
        },
        RpcResponseContract::CommandExec => command_exec_response_error(r, method),
    }
}

/// Error of the method-name check.
pub open spec fn method_name_error(method: Seq<char>) -> Option<Seq<char>> {
    if is_blank(method) { Some("json-rpc method must not be empty"@) } else { None }
}

/// Why a request is refused, if it is.
pub open spec fn request_error(method: Seq<char>, params: JsonValue, mode: RpcValidationMode) -> Option<Seq<char>> {
    if is_blank(method) {
        method_name_error(method)
    } else if mode == RpcValidationMode::NoChecks {
        None
    } else {
        match spec_contract(method) {
            Some(c) => request_rule_error(c.0, params, method),
            None => None,
        }
    }
}

/// Why a response is refused, if it is.
pub open spec fn response_error(method: Seq<char>, result: JsonValue, mode: RpcValidationMode) -> Option<Seq<char>> {
    if is_blank(method) {
        method_name_error(method)
    } else if mode == RpcValidationMode::NoChecks {
        None
    } else {
        match spec_contract(method) {
            Some(c) => response_rule_error(c.1, result, method),
            None => None,
        }
    }
}

/// An invalid-request error for `method` with `reason` and a redacted
/// summary of `payload`.
fn invalid_request(method: &str, reason: &str, payload: &JsonValue) -> (e: RpcError)
    ensures
        is_invalid_request_with(e, request_msg(method@, reason@, *payload)),
{
    let mut m = owned("invalid json-rpc request for ");
    push_str(&mut m, method);
    push_str(&mut m, ": ");
    push_str(&mut m, reason);
    push_str(&mut m, "; payload=");
    let summary = payload_summary(payload);
    push_str(&mut m, summary.as_str());
    RpcError::InvalidRequest(m)
}

/// An invalid-response error for `method` with `reason` and a redacted
/// summary of `payload`.
fn invalid_response(method: &str, reason: &str, payload: &JsonValue) -> (e: RpcError)
    ensures
        is_invalid_request_with(e, response_msg(method@, reason@, *payload)),
{
    let mut m = owned("invalid json-rpc response for ");
    push_str(&mut m, method);
    push_str(&mut m, ": ");
    push_str(&mut m, reason);
    push_str(&mut m, "; payload=");
    let summary = payload_summary(payload);
    push_str(&mut m, summary.as_str());
    RpcError::InvalidRequest(m)
}

/// `field_name` must be an object.
fn require_object(value: &JsonValue, method: &str, field_name: &str) -> (r: Result<(), RpcError>)
    ensures
        outcome(r, object_error(*value, method@, field_name@)),
{
    if value.is_object() {
        Ok(())
    } else {
        let mut reason = owned(field_name);
        push_str(&mut reason, " must be an object");
        Err(invalid_request(method, reason.as_str(), value))
    }
}

/// `field_name.key` must be a non-blank string.
fn require_string(value: &JsonValue, method: &str, key: &str, field_name: &str) -> (r: Result<(), RpcError>)
    ensures
        outcome(r, string_field_error(*value, method@, key@, field_name@)),
{
    require_object(value, method, field_name)?;
    if non_blank_str(value.get(key)) {
        Ok(())
    } else {
        let mut reason = owned(field_name);
        push_str(&mut reason, ".");
        push_str(&mut reason, key);
        push_str(&mut reason, " must be a non-empty string");
        Err(invalid_request(method, reason.as_str(), value))
    }
}

/// Rejects a blank method name.
fn validate_method_name(method: &str) -> (r: Result<(), RpcError>)
    ensures
        outcome(r, method_name_error(method@)),
{
    if str_is_blank(method) {
        Err(RpcError::InvalidRequest(owned("json-rpc method must not be empty")))
    } else {
        Ok(())
    }
}

/// Checks `thread/start` params.
fn validate_thread_start_request(params: &JsonValue, method: &str) -> (r: Result<(), RpcError>)
    ensures
        outcome(r, thread_start_error(*params, method@)),
{
    if !params.is_object() {
        return Err(invalid_request(method, "params must be an object", params));
    }
    match params.get("sandbox") {
        Some(sandbox_policy) => match summarize_sandbox_policy_wire_value(sandbox_policy, "params.sandbox") {
            Ok(_) => Ok(()),
            Err(reason) => Err(invalid_request(method, reason.as_str(), params)),
        },
        None => Ok(()),
    }
}

/// Checks a terminal size object.
fn validate_command_exec_size(size: &JsonValue, method: &str, payload: &JsonValue) -> (r: Result<(), RpcError>)
    ensures
        outcome(r, size_error(*size, method@, *payload)),
{
    if !size.is_object() {
        return Err(invalid_request(method, "params.size must be an object", payload));
    }
    let rows = match size.get("rows") {
        Some(x) => match x.as_u64() {
            Some(n) => n,
            None => 0,
        },
        None => 0,
    };
    let cols = match size.get("cols") {
        Some(x) => match x.as_u64() {
            Some(n) => n,
            None => 0,
        },
        None => 0,
    };
    if rows == 0 {
        return Err(invalid_request(method, "params.size.rows must be > 0", payload));
    }
    if cols == 0 {
        return Err(invalid_request(method, "params.size.cols must be > 0", payload));
    }
    Ok(())
}

/// `params.key`, when present, is a non-blank string.
fn check_optional_non_empty_string(params: &JsonValue, key: &str) -> (r: Result<(), String>)
    ensures
        r is Ok <==> optional_string_error(*params, key@) is None,
        r matches Err(m) ==> optional_string_error(*params, key@) == Some(m@),
{
    match params.get(key) {
        Some(v) => match v {
            JsonValue::String(t) => {
                if str_is_blank(t.as_str()) {
                    let mut m = owned("params.");
                    push_str(&mut m, key);
                    push_str(&mut m, " must be a non-empty string");
                    Err(m)
                } else {
                    Ok(())
                }
            },
            _ => {
                let mut m = owned("params.");
                push_str(&mut m, key);
                push_str(&mut m, " must be a string");
                Err(m)
            },
        },
        None => Ok(()),
    }
}

/// True when every item is a string value.
fn all_string_items(items: &Vec<JsonValue>) -> (r: bool)
    ensures
        r == all_strings(items@),
{
    let mut i: usize = 0;
    while i < items.len()
        invariant
            i <= items.len(),
            forall|j: int| 0 <= j < i ==> (#[trigger] items@[j]) is String,
        decreases items.len() - i,
    {
        if !items[i].is_string() {
            return false;
        }
        i += 1;
    }
    true
}

/// Checks `command/exec` params (see `command_exec_error`).
fn validate_command_exec_request(params: &JsonValue, method: &str) -> (r: Result<(), RpcError>)
    ensures
        outcome(r, command_exec_error(*params, method@)),
{
    if !params.is_object() {
        return Err(invalid_request(method, "params must be an object", params));
    }
    let items = match params.get("command") {
        Some(c) => match c {
            JsonValue::Array(items) => items,
            _ => return Err(invalid_request(method, "params.command must be an array", params)),
        },
        None => return Err(invalid_request(method, "params.command must be an array", params)),
    };
    if items.len() == 0 {
        return Err(invalid_request(method, "params.command must not be empty", params));
    }
    if !all_string_items(items) {
        return Err(invalid_request(method, "params.command items must be strings", params));
    }
    match check_optional_non_empty_string(params, "processId") {
        Ok(()) => {},
        Err(reason) => return Err(invalid_request(method, reason.as_str(), params)),
    }
    let has_process_id = params.get("processId").is_some();
    let tty = get_bool(params, "tty");
    let stream_stdin = get_bool(params, "streamStdin");
    let stream_stdout_stderr = get_bool(params, "streamStdoutStderr");
    let effective_stream_stdin = tty || stream_stdin;
    let effective_stream_stdout_stderr = tty || stream_stdout_stderr;
    if (tty || effective_stream_stdin || effective_stream_stdout_stderr) && !has_process_id {
        return Err(invalid_request(method, "params.processId is required when tty or streaming is enabled", params));
    }
    if get_bool(params, "disableOutputCap") && params.get("outputBytesCap").is_some() {
        return Err(invalid_request(method, "params.disableOutputCap cannot be combined with params.outputBytesCap", params));
    }
    if get_bool(params, "disableTimeout") && params.get("timeoutMs").is_some() {
        return Err(invalid_request(method, "params.disableTimeout cannot be combined with params.timeoutMs", params));
    }
    match params.get("timeoutMs") {
        Some(t) => match t.as_i64() {
            Some(timeout_ms) => if timeout_ms < 0 {
                return Err(invalid_request(method, "params.timeoutMs must be >= 0", params));
            },
            None => {},
        },
        None => {},
    }
    match params.get("outputBytesCap") {
        Some(c) => match c.as_u64() {
            Some(cap) => if cap == 0 {
                return Err(invalid_request(method, "params.outputBytesCap must be > 0", params));
            },
            None => {},
        },
        None => {},
    }
    match params.get("size") {
        Some(size) => {
            if !tty {
                return Err(invalid_request(method, "params.size is only valid when params.tty is true", params));
            }
            validate_command_exec_size(size, method, params)?;
        },
        None => {},
    }
    match params.get("sandboxPolicy") {
        Some(sandbox_policy) => match summarize_sandbox_policy_wire_value(sandbox_policy, "params.sandboxPolicy") {
            Ok(_) => Ok(()),
            Err(reason) => Err(invalid_request(method, reason.as_str(), params)),
        },
        None => Ok(()),
    }
}

/// Checks `command/exec/write` params.
fn validate_command_exec_write_request(params: &JsonValue, method: &str) -> (r: Result<(), RpcError>)
    ensures
        outcome(r, command_exec_write_error(*params, method@)),
{
    require_string(params, method, "processId", "params")?;
    let has_delta = match params.get("deltaBase64") {
        Some(d) => d.as_str().is_some(),
        None => false,
    };
    let close_stdin = get_bool(params, "closeStdin");
    if !has_delta && !close_stdin {
        return Err(invalid_request(method, "params must include deltaBase64, closeStdin, or both", params));
    }
    Ok(())
}

/// Checks `command/exec/resize` params.
fn validate_command_exec_resize_request(params: &JsonValue, method: &str) -> (r: Result<(), RpcError>)
    ensures
        outcome(r, command_exec_resize_error(*params, method@)),
{
    require_string(params, method, "processId", "params")?;
    match params.get("size") {
        Some(size) => validate_command_exec_size(size, method, params),
        None => Err(invalid_request(method, "params.size must be an object", params)),
    }
}

/// Checks `command/exec` results.
fn validate_command_exec_response(result: &JsonValue, method: &str) -> (r: Result<(), RpcError>)
    ensures
        outcome(r, command_exec_response_error(*result, method@)),
{
    if !result.is_object() {
        return Err(invalid_request(method, "result must be an object", result));
    }
    let code_ok = match result.get("exitCode") {
        Some(c) => match c.as_i64() {
            Some(code) => i32::MIN as i64 <= code && code <= i32::MAX as i64,
            None => false,
        },
        None => false,
    };
    if !code_ok {
        return Err(invalid_response(method, "result.exitCode must be an i32-compatible integer", result));
    }
    let stdout_ok = match result.get("stdout") {
        Some(x) => x.as_str().is_some(),
        None => false,
    };
    if !stdout_ok {
        return Err(invalid_response(method, "result.stdout must be a string", result));
    }
    let stderr_ok = match result.get("stderr") {
        Some(x) => x.as_str().is_some(),
        None => false,
    };
    if !stderr_ok {
        return Err(invalid_response(method, "result.stderr must be a string", result));
    }
    Ok(())
}

/// The thread id of an object result (`/thread/id`, `threadId`, then `id`).
pub fn parse_result_thread_id(v: &JsonValue) -> (r: Option<String>)
    ensures
        opt_str_view(r) == result_thread_id(*v),
{
    let nested = opt_string(get_opt(v.get("thread"), "id"));
    if nested.is_some() {
        return nested;
    }
    let direct = opt_string(v.get("threadId"));
    if direct.is_some() {
        return direct;
    }
    opt_string(v.get("id"))
}

/// The turn id of an object result (`/turn/id`, `turnId`, then `id`).
pub fn parse_result_turn_id(v: &JsonValue) -> (r: Option<String>)
    ensures
        opt_str_view(r) == result_turn_id(*v),
{
    let nested = opt_string(get_opt(v.get("turn"), "id"));
    if nested.is_some() {
        return nested;
    }
    let direct = opt_string(v.get("turnId"));
    if direct.is_some() {
        return direct;
    }
    opt_string(v.get("id"))
}

/// Applies the request rule `descriptor.request` to `params`.
fn validate_request_by_descriptor(method: &str, params: &JsonValue, descriptor: RpcContractDescriptor) -> (r: Result<(), RpcError>)
    ensures
        outcome(r, request_rule_error(descriptor.request, *params, method@)),
{
    match descriptor.request {
        RpcRequestContract::Object => require_object(params, method, "params"),
        RpcRequestContract::ThreadStart => validate_thread_start_request(params, method),
        RpcRequestContract::ThreadId => require_string(params, method, "threadId", "params"),
        RpcRequestContract::ThreadIdAndTurnId => {
            require_string(params, method, "threadId", "params")?;
            require_string(params, method, "turnId", "params")
        },
        RpcRequestContract::ProcessId => require_string(params, method, "processId", "params"),
        RpcRequestContract::CommandExec => validate_command_exec_request(params, method),
        RpcRequestContract::CommandExecWrite => validate_command_exec_write_request(params, method),
        RpcRequestContract::CommandExecResize => validate_command_exec_resize_request(params, method),
    }
}

/// Applies the response rule `descriptor.response` to `result`.
fn validate_response_by_descriptor(method: &str, result: &JsonValue, descriptor: RpcContractDescriptor) -> (r: Result<(), RpcError>)
    ensures
        outcome(r, response_rule_error(descriptor.response, *result, method@)),
{
    match descriptor.response {
        RpcResponseContract::Object => require_object(result, method, "result"),
        RpcResponseContract::ThreadId => {
            if parse_result_thread_id(result).is_none() {
                Err(invalid_response(method, "result is missing thread id", result))
            } else {
                Ok(())
            }
        },
        RpcResponseContract::TurnId => {
            if parse_result_turn_id(result).is_none() {
                Err(invalid_response(method, "result is missing turn id", result))
            } else {
                Ok(())
            }
        },
        RpcResponseContract::DataArray => {
            if !result.is_object() {
                return Err(invalid_request(method, "result must be an object", result));
            }
            let is_array = match result.get("data") {
                Some(d) => d.is_array(),
                None => false,
            };
            if is_array {
                Ok(())
            } else {
                Err(invalid_response(method, "result.data must be an array", result))
            }
        },
        RpcResponseContract::CommandExec => validate_command_exec_response(result, method),
    }
}

/// Checks an outgoing request: the method name is never blank; in
/// `KnownMethods` mode a known method's params must have its shape.
/// Unknown methods pass.
pub fn validate_rpc_request(method: &str, params: &JsonValue, mode: RpcValidationMode) -> (r: Result<(), RpcError>)
    ensures
        outcome(r, request_error(method@, *params, mode)),
{
    validate_method_name(method)?;
    if mode == RpcValidationMode::NoChecks {
        return Ok(());
    }
    match rpc_contract_descriptor(method) {
        Some(descriptor) => validate_request_by_descriptor(method, params, descriptor),
        None => Ok(()),
    }
}

/// Checks an incoming result: the method name is never blank; in
/// `KnownMethods` mode a known method's result must have its shape.
/// Unknown methods pass.
pub fn validate_rpc_response(method: &str, result: &JsonValue, mode: RpcValidationMode) -> (r: Result<(), RpcError>)
    ensures
        outcome(r, response_error(method@, *result, mode)),
{
    validate_method_name(method)?;
    if mode == RpcValidationMode::NoChecks {
        return Ok(());
    }
    match rpc_contract_descriptor(method) {
        Some(descriptor) => validate_response_by_descriptor(method, result, descriptor),
        None => Ok(()),
    }
}

/// The methods of a descriptor table, in order.
pub open spec fn table_methods(t: Seq<(Seq<char>, RpcRequestContract, RpcResponseContract)>) -> Seq<Seq<char>> {
    t.map_values(|e: (Seq<char>, RpcRequestContract, RpcResponseContract)| e.0)
}

/// A table entry for `method` exists exactly when `method` is one of the
/// table's methods.
proof fn lemma_lookup_some_iff_listed(t: Seq<(Seq<char>, RpcRequestContract, RpcResponseContract)>, method: Seq<char>)
    ensures
        lookup_contract(t, method) is Some <==> table_methods(t).contains(method),
    decreases t.len(),
{
    if t.len() > 0 {
        lemma_lookup_some_iff_listed(t.drop_first(), method);
        assert(table_methods(t.drop_first()) =~= table_methods(t).drop_first());
        if table_methods(t).contains(method) && t[0].0 != method {
            let i = choose|i: int| 0 <= i < table_methods(t).len() && table_methods(t)[i] == method;
            assert(i > 0);
            assert(table_methods(t).drop_first()[i - 1] == method);
        }
        if table_methods(t.drop_first()).contains(method) {
            let i = choose|i: int| 0 <= i < table_methods(t.drop_first()).len() && table_methods(t.drop_first())[i] == method;
            assert(table_methods(t)[i + 1] == method);
        }
        if t[0].0 == method {
            assert(table_methods(t)[0] == method);
        }
    }
}

/// The descriptor catalog lists exactly the known methods, in the same
/// order, and a method has a contract exactly when it is known.
pub proof fn lemma_descriptor_catalog_matches_known_methods(method: Seq<char>)
    ensures
        table_methods(spec_descriptor_table()) == spec_known_methods(),
        spec_contract(method) is Some <==> spec_known_methods().contains(method),
{
    assert(table_methods(spec_descriptor_table()) =~= spec_known_methods());
    lemma_lookup_some_iff_listed(spec_descriptor_table(), method);
}

/// In `NoChecks` mode only the method name is checked: any payload passes
/// for a non-blank method, and a blank one fails in every mode.
pub proof fn lemma_no_checks_mode_checks_only_method_name(method: Seq<char>, payload: JsonValue, mode: RpcValidationMode)
    ensures
        request_error(method, payload, RpcValidationMode::NoChecks) == method_name_error(method),
        response_error(method, payload, RpcValidationMode::NoChecks) == method_name_error(method),
        is_blank(method) ==> request_error(method, payload, mode) == Some("json-rpc method must not be empty"@),
        is_blank(method) ==> response_error(method, payload, mode) == Some("json-rpc method must not be empty"@),
{
}

/// Methods outside the catalog pass in every mode when their name is not
/// blank.
pub proof fn lemma_unknown_methods_pass(method: Seq<char>, payload: JsonValue, mode: RpcValidationMode)
    requires
        !spec_known_methods().contains(method),
        !is_blank(method),
    ensures
        request_error(method, payload, mode) is None,
        response_error(method, payload, mode) is None,
{
    lemma_descriptor_catalog_matches_known_methods(method);
}

/// The reasons a shape error gives: fixed texts built from the names of
/// the checked members, never from the values the payload holds.
pub open spec fn catalog_reason(r: Seq<char>) -> bool {
    ||| r == "params"@ + " must be an object"@
    ||| r == "params must be an object"@
    ||| r == "params"@ + "."@ + "threadId"@ + " must be a non-empty string"@
    ||| r == "params"@ + "."@ + "turnId"@ + " must be a non-empty string"@
    ||| r == "params"@ + "."@ + "processId"@ + " must be a non-empty string"@
    ||| r == "params."@ + "processId"@ + " must be a non-empty string"@
    ||| r == "params."@ + "processId"@ + " must be a string"@
    ||| r == "params.sandbox"@ + " must be an object"@
    ||| r == "params.sandbox"@ + ".type must be a non-empty string"@
    ||| r == "params.sandboxPolicy"@ + " must be an object"@
    ||| r == "params.sandboxPolicy"@ + ".type must be a non-empty string"@
    ||| r == "params must include deltaBase64, closeStdin, or both"@
    ||| r == "params.size must be an object"@
    ||| r == "params.size.rows must be > 0"@
    ||| r == "params.size.cols must be > 0"@
    ||| r == "params.command must be an array"@
    ||| r == "params.command must not be empty"@
    ||| r == "params.command items must be strings"@
    ||| r == "params.processId is required when tty or streaming is enabled"@
    ||| r == "params.disableOutputCap cannot be combined with params.outputBytesCap"@
    ||| r == "params.disableTimeout cannot be combined with params.timeoutMs"@
    ||| r == "params.timeoutMs must be >= 0"@
    ||| r == "params.outputBytesCap must be > 0"@
    ||| r == "params.size is only valid when params.tty is true"@
    ||| r == "result"@ + " must be an object"@
    ||| r == "result must be an object"@
    ||| r == "result is missing thread id"@
    ||| r == "result is missing turn id"@
    ||| r == "result.data must be an array"@
    ||| r == "result.exitCode must be an i32-compatible integer"@
    ||| r == "result.stdout must be a string"@
    ||| r == "result.stderr must be a string"@
}

/// `msg` reports `method` with one of the fixed reasons (see
/// `catalog_reason`) and the redacted summary of `payload`, and nothing
/// else of the payload.
pub open spec fn is_redacted_report(msg: Seq<char>, method: Seq<char>, payload: JsonValue) -> bool {
    exists|reason: Seq<char>|
        #![trigger request_msg(method, reason, payload)]
        #![trigger response_msg(method, reason, payload)]
        catalog_reason(reason)
        && (request_msg(method, reason, payload) == msg || response_msg(method, reason, payload) == msg)
}

/// Every shape error of a known method names the method and carries only
/// the redacted summary of the checked payload.
pub proof fn lemma_shape_errors_are_redacted(method: Seq<char>, payload: JsonValue, mode: RpcValidationMode)
    requires
        !is_blank(method),
    ensures
        request_error(method, payload, mode) matches Some(msg) ==> is_redacted_report(msg, method, payload),
        response_error(method, payload, mode) matches Some(msg) ==> is_redacted_report(msg, method, payload),
{
    if let Some(msg) = request_error(method, payload, mode) {
        let c = (spec_contract(method)->0).0;
        lemma_request_rule_redacted(c, payload, method);
    }
    if let Some(msg) = response_error(method, payload, mode) {
        let c = (spec_contract(method)->0).1;
        lemma_response_rule_redacted(c, payload, method);
    }
}

proof fn lemma_string_field_redacted(p: JsonValue, method: Seq<char>, key: Seq<char>, field_name: Seq<char>)
    requires
        field_name == "params"@,
        key == "threadId"@ || key == "turnId"@ || key == "processId"@,
    ensures
        string_field_error(p, method, key, field_name) matches Some(msg) ==> is_redacted_report(msg, method, p),
{
    if !(p is Object) {
        let reason = field_name + " must be an object"@;
        assert(request_msg(method, reason, p) == string_field_error(p, method, key, field_name)->0);
    } else if !spec_non_blank_str(spec_get(p, key)) {
        let reason = field_name + "."@ + key + " must be a non-empty string"@;
        assert(request_msg(method, reason, p) == string_field_error(p, method, key, field_name)->0);
    }
}

proof fn lemma_size_redacted(size: JsonValue, method: Seq<char>, p: JsonValue)
    ensures
        size_error(size, method, p) matches Some(msg) ==> is_redacted_report(msg, method, p),
{
    if !(size is Object) {
        assert(request_msg(method, "params.size must be an object"@, p) == size_error(size, method, p)->0);
    } else if spec_as_u64(spec_get(size, "rows"@)).unwrap_or(0) == 0 {
        assert(request_msg(method, "params.size.rows must be > 0"@, p) == size_error(size, method, p)->0);
    } else if spec_as_u64(spec_get(size, "cols"@)).unwrap_or(0) == 0 {
        assert(request_msg(method, "params.size.cols must be > 0"@, p) == size_error(size, method, p)->0);
    }
}

#[verifier::rlimit(40)]
proof fn lemma_request_rule_redacted(c: RpcRequestContract, p: JsonValue, method: Seq<char>)
    ensures
        request_rule_error(c, p, method) matches Some(msg) ==> is_redacted_report(msg, method, p),
{
    lemma_string_field_redacted(p, method, "threadId"@, "params"@);
    lemma_string_field_redacted(p, method, "turnId"@, "params"@);
    lemma_string_field_redacted(p, method, "processId"@, "params"@);
    if let Some(msg) = request_rule_error(c, p, method) {
        match c {
            RpcRequestContract::Object => {
                assert(request_msg(method, "params"@ + " must be an object"@, p) == msg);
            },
            RpcRequestContract::ThreadStart => {
                if !(p is Object) {
                    assert(request_msg(method, "params must be an object"@, p) == msg);
                } else {
                    let reason = sandbox_wire_error(spec_get(p, "sandbox"@)->0, "params.sandbox"@)->0;
                    assert(request_msg(method, reason, p) == msg);
                }
            },
            RpcRequestContract::CommandExec => {
                lemma_command_exec_redacted(p, method);
            },
            RpcRequestContract::CommandExecWrite => {
                if string_field_error(p, method, "processId"@, "params"@) is None {
                    assert(request_msg(method, "params must include deltaBase64, closeStdin, or both"@, p) == msg);
                }
            },
            RpcRequestContract::CommandExecResize => {
                if string_field_error(p, method, "processId"@, "params"@) is None {
                    match spec_get(p, "size"@) {
                        None => {
                            assert(request_msg(method, "params.size must be an object"@, p) == msg);
                        },
                        Some(size) => {
                            lemma_size_redacted(size, method, p);
                        },
                    }
                }
            },
            _ => {},
        }
    }
}

#[verifier::rlimit(60)]
proof fn lemma_command_exec_redacted(p: JsonValue, method: Seq<char>)
    ensures
        command_exec_error(p, method) matches Some(msg) ==> is_redacted_report(msg, method, p),
{
    if let Some(msg) = command_exec_error(p, method) {
        let tty = spec_get_bool(p, "tty"@);
        let streaming = tty || spec_get_bool(p, "streamStdin"@) || spec_get_bool(p, "streamStdoutStderr"@);
        if !(p is Object) {
            assert(request_msg(method, "params must be an object"@, p) == msg);
        } else if !(spec_get(p, "command"@) matches Some(JsonValue::Array(_))) {
            assert(request_msg(method, "params.command must be an array"@, p) == msg);
        } else if spec_get(p, "command"@)->0->Array_0@.len() == 0 {
            assert(request_msg(method, "params.command must not be empty"@, p) == msg);
        } else if !all_strings(spec_get(p, "command"@)->0->Array_0@) {
            assert(request_msg(method, "params.command items must be strings"@, p) == msg);
        } else if optional_string_error(p, "processId"@) is Some {
            assert(request_msg(method, optional_string_error(p, "processId"@)->0, p) == msg);
        } else if streaming && spec_get(p, "processId"@) is None {
            assert(request_msg(method, "params.processId is required when tty or streaming is enabled"@, p) == msg);
        } else if spec_get_bool(p, "disableOutputCap"@) && spec_get(p, "outputBytesCap"@) is Some {
            assert(request_msg(method, "params.disableOutputCap cannot be combined with params.outputBytesCap"@, p) == msg);
        } else if spec_get_bool(p, "disableTimeout"@) && spec_get(p, "timeoutMs"@) is Some {
            assert(request_msg(method, "params.disableTimeout cannot be combined with params.timeoutMs"@, p) == msg);
        } else if spec_as_i64(spec_get(p, "timeoutMs"@)) matches Some(t) && t < 0 {
            assert(request_msg(method, "params.timeoutMs must be >= 0"@, p) == msg);
        } else if spec_as_u64(spec_get(p, "outputBytesCap"@)) == Some(0u64) {
            assert(request_msg(method, "params.outputBytesCap must be > 0"@, p) == msg);
        } else if spec_get(p, "size"@) is Some && !tty {
            assert(request_msg(method, "params.size is only valid when params.tty is true"@, p) == msg);
        } else if spec_get(p, "size"@) is Some && size_error(spec_get(p, "size"@)->0, method, p) is Some {
            lemma_size_redacted(spec_get(p, "size"@)->0, method, p);
        } else {
            let reason = sandbox_wire_error(spec_get(p, "sandboxPolicy"@)->0, "params.sandboxPolicy"@)->0;
            assert(request_msg(method, reason, p) == msg);
        }
    }
}

proof fn lemma_response_rule_redacted(c: RpcResponseContract, r: JsonValue, method: Seq<char>)
    ensures
        response_rule_error(c, r, method) matches Some(msg) ==> is_redacted_report(msg, method, r),
{
    if let Some(msg) = response_rule_error(c, r, method) {
        match c {
            RpcResponseContract::Object => {
                assert(request_msg(method, "result"@ + " must be an object"@, r) == msg);
            },
            RpcResponseContract::ThreadId => {
                assert(response_msg(method, "result is missing thread id"@, r) == msg);
            },
            RpcResponseContract::TurnId => {
                assert(response_msg(method, "result is missing turn id"@, r) == msg);
            },
            RpcResponseContract::DataArray => {
                if !(r is Object) {
                    assert(request_msg(method, "result must be an object"@, r) == msg);
                } else {
                    assert(response_msg(method, "result.data must be an array"@, r) == msg);
                }
            },
            RpcResponseContract::CommandExec => {
                if !(r is Object) {
                    assert(request_msg(method, "result must be an object"@, r) == msg);
                } else if !(spec_as_i64(spec_get(r, "exitCode"@)) matches Some(x) && i32::MIN <= x <= i32::MAX) {
                    assert(response_msg(method, "result.exitCode must be an i32-compatible integer"@, r) == msg);
                } else if spec_as_str(spec_get(r, "stdout"@)) is None {
                    assert(response_msg(method, "result.stdout must be a string"@, r) == msg);
                } else {
                    assert(response_msg(method, "result.stderr must be a string"@, r) == msg);
                }
            },
        }
    }
}

/// The methods whose params must name a thread: the thread operations on
/// an existing thread and `turn/start`.
pub open spec fn names_thread(method: Seq<char>) -> bool {
    ||| method == "thread/resume"@
    ||| method == "thread/fork"@
    ||| method == "thread/archive"@
    ||| method == "thread/read"@
    ||| method == "thread/rollback"@
    ||| method == "turn/start"@
}

/// Requests to resume, fork, archive, read or roll back a thread, or to
/// start a turn, are checked for the thread they name: params that are not
/// an object are refused as such; params without a non-blank string
/// `threadId` are refused with "params.threadId must be a non-empty
/// string"; params with one pass. The refusal reports the method and the
/// redacted summary of the params.
pub proof fn lemma_thread_requests_need_a_thread_id(method: Seq<char>, params: JsonValue)
    requires
        names_thread(method),
    ensures
        !(params is Object) ==> request_error(method, params, RpcValidationMode::KnownMethods)
            == Some("invalid json-rpc request for "@ + method + ": "@ + ("params"@ + " must be an object"@)
                + "; payload="@ + spec_payload_summary(params)),
        params is Object && !(spec_as_str(spec_get(params, "threadId"@)) matches Some(t) && !is_blank(t)) ==>
            request_error(method, params, RpcValidationMode::KnownMethods)
                == Some("invalid json-rpc request for "@ + method + ": "@
                    + ("params"@ + "."@ + "threadId"@ + " must be a non-empty string"@)
                    + "; payload="@ + spec_payload_summary(params)),
        params is Object ==> (spec_as_str(spec_get(params, "threadId"@)) matches Some(t) && !is_blank(t) ==>
            request_error(method, params, RpcValidationMode::KnownMethods) is None),
{
    assert(spec_contract(method) matches Some(c) && c.0 == RpcRequestContract::ThreadId) by {
        lemma_thread_methods_name_threads(method);
    }
    assert(!is_blank(method)) by {
        lemma_thread_methods_not_blank(method);
    }
}

/// The lookup finds the first entry for `method`.
proof fn lemma_lookup_at(
    table: Seq<(Seq<char>, RpcRequestContract, RpcResponseContract)>,
    method: Seq<char>,
    k: int,
)
    requires
        0 <= k < table.len(),
        table[k].0 == method,
        forall|j: int| 0 <= j < k ==> (#[trigger] table[j]).0 != method,
    ensures
        lookup_contract(table, method) == Some((table[k].1, table[k].2)),
    decreases k,
{
    if k > 0 {
        let rest = table.drop_first();
        assert forall|j: int| 0 <= j < k - 1 implies (#[trigger] rest[j]).0 != method by {
            assert(rest[j] == table[j + 1]);
        }
        lemma_lookup_at(rest, method, k - 1);
    }
}

/// Texts of different lengths differ.
proof fn lemma_len_differs(a: Seq<char>, b: Seq<char>)
    requires
        a.len() != b.len(),
    ensures
        a != b,
{
}

proof fn lemma_thread_methods_name_threads(method: Seq<char>)
    requires
        names_thread(method),
    ensures
        spec_contract(method) matches Some(c) && c.0 == RpcRequestContract::ThreadId,
{
    let t = spec_descriptor_table();
    reveal_strlit("thread/start");
    reveal_strlit("thread/resume");
    reveal_strlit("thread/fork");
    reveal_strlit("thread/archive");
    reveal_strlit("thread/read");
    reveal_strlit("thread/list");
    reveal_strlit("thread/loaded/list");
    reveal_strlit("thread/rollback");
    reveal_strlit("skills/list");
    reveal_strlit("command/exec");
    reveal_strlit("command/exec/write");
    reveal_strlit("command/exec/terminate");
    reveal_strlit("command/exec/resize");
    reveal_strlit("turn/start");
    let k: int = if method == "thread/resume"@ {
        1
    } else if method == "thread/fork"@ {
        2
    } else if method == "thread/archive"@ {
        3
    } else if method == "thread/read"@ {
        4
    } else if method == "thread/rollback"@ {
        7
    } else {
        13
    };
    assert(t[k].0 == method);
    assert forall|j: int| 0 <= j < k implies (#[trigger] t[j]).0 != method by {
        if t[j].0.len() == method.len() {
            assert(t[j].0[0] != method[0] || t[j].0[7] != method[7] || t[j].0[8] != method[8]
                || t[j].0[9] != method[9] || t[j].0[5] != method[5]);
        }
    }
    lemma_lookup_at(t, method, k);
}

proof fn lemma_thread_methods_not_blank(method: Seq<char>)
    requires
        names_thread(method),
    ensures
        !is_blank(method),
{
    reveal_strlit("thread/resume");
    reveal_strlit("thread/fork");
    reveal_strlit("thread/archive");
    reveal_strlit("thread/read");
    reveal_strlit("thread/rollback");
    reveal_strlit("turn/start");
    assert(method.len() > 0 && method[0] == 't');
    assert(method.last() != ' ');
    assert(!is_ws(method[0]));
    assert(!is_ws(method.last()));
    assert(trim_start(method) == method);
    assert(trim_end(method) == method);
}

} // verus!
