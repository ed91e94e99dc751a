//! The decisions of one prompt run: errors signalled during a turn, how a
//! turn's end becomes the run's result, and the steps of a run as a state
//! machine driven by the outcomes of its calls.
use vstd::prelude::*;
use crate::api_types::{ReasoningEffort, ThreadTurnStatus, DEFAULT_REASONING_EFFORT};
use crate::errors::{is_invalid_request_with, PromptRunError, PromptTurnFailure, PromptTurnTerminalState, RpcError, RuntimeError};
use crate::wire::{
    opt_string_seq, presence_outcome, security_error, thread_start_from_prompt, thread_start_params_from_prompt,
    turn_start_from_prompt, turn_start_params_from_prompt, validate_prompt_attachments, validate_thread_start_security,
    PromptAttachment, PromptRunParams, ThreadStartParams, TurnStartParams,
};
use crate::events::Envelope;
use crate::turn_output::{collector_step, AssistantTextCollector};
use crate::hooks::{HookContext, HookPhase};
use crate::json::{
    get_opt, opt_as_str, opt_deref, opt_str_view, spec_as_i64, spec_as_str, spec_get, spec_get_opt,
    JsonValue,
};
use crate::text::{is_blank, owned, push_str, str_eq, str_is_blank, trim, trim_str};

verus! {

/// An error reported during a turn.
#[derive(Clone, Debug, PartialEq, Eq)]
pub struct PromptTurnErrorSignal {
    pub source_method: String,
    pub code: Option<i64>,
    pub message: String,
}

impl PromptTurnErrorSignal {
    /// The failure context of a turn that ended in `terminal_state`.
    pub fn into_failure(self, terminal_state: PromptTurnTerminalState) -> (f: PromptTurnFailure)
        ensures
            f.terminal_state == terminal_state,
            f.source_method == self.source_method,
            f.code == self.code,
            f.message == self.message,
    {
        PromptTurnFailure {
            terminal_state,
            source_method: self.source_method,
            code: self.code,
            message: self.message,
        }
    }
}

/// The message of an error payload: `message`, `detail`, `reason`, `text`,
/// then `error.message`; with the payload's integer `code`.
pub open spec fn spec_error_message(root: JsonValue) -> Option<(Option<i64>, Seq<char>)> {
    let m = if spec_as_str(spec_get(root, "message"@)) is Some {
        spec_as_str(spec_get(root, "message"@))
    } else if spec_as_str(spec_get(root, "detail"@)) is Some {
        spec_as_str(spec_get(root, "detail"@))
    } else if spec_as_str(spec_get(root, "reason"@)) is Some {
        spec_as_str(spec_get(root, "reason"@))
    } else if spec_as_str(spec_get(root, "text"@)) is Some {
        spec_as_str(spec_get(root, "text"@))
    } else {
        spec_as_str(spec_get_opt(spec_get(root, "error"@), "message"@))
    };
    match m {
        Some(t) => Some((spec_as_i64(spec_get(root, "code"@)), t)),
        None => None,
    }
}

/// The first text among the members of `root` that `keys` name.
fn first_str_member<'a>(root: &'a JsonValue) -> (r: Option<&'a str>)
    ensures
        match spec_error_message(*root) {
            Some((_, t)) => r matches Some(s) && s@ == t,
            None => r is None,
        },
{
    let m = opt_as_str(root.get("message"));
    if m.is_some() {
        return m;
    }
    let m = opt_as_str(root.get("detail"));
    if m.is_some() {
        return m;
    }
    let m = opt_as_str(root.get("reason"));
    if m.is_some() {
        return m;
    }
    let m = opt_as_str(root.get("text"));
    if m.is_some() {
        return m;
    }
    opt_as_str(get_opt(root.get("error"), "message"))
}

/// Code and message of an error payload (see `spec_error_message`).
pub fn extract_error_message(root: &JsonValue) -> (r: Option<(Option<i64>, String)>)
    ensures
        match spec_error_message(*root) {
            Some((c, t)) => r matches Some((rc, rt)) && rc == c && rt@ == t,
            None => r is None,
        },
{
    match first_str_member(root) {
        Some(m) => {
            let code = match root.get("code") {
                Some(c) => c.as_i64(),
                None => None,
            };
            Some((code, owned(m)))
        },
        None => None,
    }
}

/// The error payload of an event and its message, looked for in
/// `params.error`, `error`, `params`, then the message itself.
pub open spec fn spec_signal_payload(json: JsonValue) -> Option<(Option<i64>, Seq<char>)> {
    let p = spec_get(json, "params"@);
    let in_opt = |r: Option<JsonValue>| match r {
        Some(x) => spec_error_message(x),
        None => None,
    };
    if in_opt(spec_get_opt(p, "error"@)) is Some {
        in_opt(spec_get_opt(p, "error"@))
    } else if in_opt(spec_get(json, "error"@)) is Some {
        in_opt(spec_get(json, "error"@))
    } else if in_opt(p) is Some {
        in_opt(p)
    } else {
        spec_error_message(json)
    }
}

/// The error an event signals: only `error` and `turn/failed` events do;
/// their message comes from the payload, else it is "<method> event".
pub open spec fn spec_turn_error_signal(e: Envelope) -> Option<(Seq<char>, Option<i64>, Seq<char>)> {
    match e.method {
        Some(m) => if m@ == "error"@ || m@ == "turn/failed"@ {
            match spec_signal_payload(e.json) {
                Some((c, t)) => Some((m@, c, t)),
                None => Some((m@, None, m@ + " event"@)),
            }
        } else {
            None
        },
        None => None,
    }
}

/// Code and message of an optional error payload.
fn error_message_opt(root: Option<&JsonValue>) -> (r: Option<(Option<i64>, String)>)
    ensures
        match match opt_deref(root) { Some(x) => spec_error_message(x), None => None } {
            Some((c, t)) => r matches Some((rc, rt)) && rc == c && rt@ == t,
            None => r is None,
        },
{
    match root {
        Some(x) => extract_error_message(x),
        None => None,
    }
}

/// The error an event signals (see `spec_turn_error_signal`).
pub fn extract_turn_error_signal(envelope: &Envelope) -> (r: Option<PromptTurnErrorSignal>)
    ensures
        match spec_turn_error_signal(*envelope) {
            Some((m, c, t)) => r matches Some(s) && s.source_method@ == m && s.code == c && s.message@ == t,
            None => r is None,
        },
{
    let method = match &envelope.method {
        Some(m) => m.as_str(),
        None => return None,
    };
    if !str_eq(method, "error") && !str_eq(method, "turn/failed") {
        return None;
    }
    let params = envelope.json.get("params");
    let mut found = error_message_opt(get_opt(params, "error"));
    if found.is_none() {
        found = error_message_opt(envelope.json.get("error"));
    }
    if found.is_none() {
        found = error_message_opt(params);
    }
    if found.is_none() {
        found = extract_error_message(&envelope.json);
    }
    match found {
        Some((code, message)) => Some(PromptTurnErrorSignal { source_method: owned(method), code, message }),
        None => {
            let mut message = owned(method);
            push_str(&mut message, " event");
            Some(PromptTurnErrorSignal { source_method: owned(method), code: None, message })
        },
    }
}

/// How a turn ended, as seen on the event stream.
#[derive(Clone, Copy, Debug, PartialEq, Eq, Structural)]
pub enum TurnTerminalEvent {
    Completed,
    Failed,
    Interrupted,
    Cancelled,
}

/// How a turn ended, as read back with `thread/read` after events were
/// missed.
#[derive(Clone, Debug, PartialEq, Eq)]
pub enum LaggedTurnTerminal {
    Completed { assistant_text: Option<String> },
    Failed { message: Option<String> },
    Interrupted,
}

/// How a turn read back with `thread/read` ended, from its status: a
/// completed turn with its assistant text, a failed one with its error
/// message, an interrupted one; a turn still in progress has not ended.
pub fn lagged_turn_terminal(status: ThreadTurnStatus, error_message: Option<String>, assistant_text: Option<String>)
    -> (r: Option<LaggedTurnTerminal>)
    ensures
        match status {
            ThreadTurnStatus::Completed => r == Some(LaggedTurnTerminal::Completed { assistant_text }),
            ThreadTurnStatus::Failed => r == Some(LaggedTurnTerminal::Failed { message: error_message }),
            ThreadTurnStatus::Interrupted => r == Some(LaggedTurnTerminal::Interrupted),
            ThreadTurnStatus::InProgress => r is None,
        },
{
    match status {
        ThreadTurnStatus::Completed => Some(LaggedTurnTerminal::Completed { assistant_text }),
        ThreadTurnStatus::Failed => Some(LaggedTurnTerminal::Failed { message: error_message }),
        ThreadTurnStatus::Interrupted => Some(LaggedTurnTerminal::Interrupted),
        ThreadTurnStatus::InProgress => None,
    }
}

/// Why collecting a turn's events stopped before its end.
#[derive(Debug)]
pub enum TurnCollectError {
    Timeout,
    /// The live stream closed; the text says why.
    StreamClosed(String),
    EventBudgetExceeded,
    TargetEnvelope(RpcError),
    LagProbe(RpcError),
}

/// The assistant text of a completed turn: the text read back after lag
/// when it is not blank, else the collected text; trimmed. Blank text is
/// an error that carries the last error signal when there was one.
pub open spec fn spec_final_text(collected: Seq<char>, lagged: Option<Seq<char>>) -> Seq<char> {
    let chosen = match lagged {
        Some(t) => if is_blank(t) { collected } else { t },
        None => collected,
    };
    trim(chosen)
}

/// Outcome of a completed turn (see `spec_final_text`).
pub fn finalize_prompt_turn_assistant_text(
    collected_assistant_text: String,
    lagged_completed_text: Option<String>,
    last_turn_error: Option<PromptTurnErrorSignal>,
) -> (r: Result<String, PromptRunError>)
    ensures
        ({
            let text = spec_final_text(collected_assistant_text@, match lagged_completed_text { Some(t) => Some(t@), None => None });
            if text.len() > 0 {
                r matches Ok(s) && s@ == text
            } else {
                match last_turn_error {
                    Some(sig) => r matches Err(PromptRunError::TurnCompletedWithoutAssistantText(f))
                        && f.terminal_state == PromptTurnTerminalState::CompletedWithoutAssistantText
                        && f.source_method == sig.source_method && f.code == sig.code && f.message == sig.message,
                    None => r matches Err(PromptRunError::EmptyAssistantText),
                }
            }
        }),
{
    let chosen = match lagged_completed_text {
        Some(snapshot_text) => {
            if str_is_blank(snapshot_text.as_str()) {
                collected_assistant_text
            } else {
                snapshot_text
            }
        },
        None => collected_assistant_text,
    };
    let text = owned(trim_str(chosen.as_str()));
    if text.as_str().is_empty() {
        match last_turn_error {
            Some(err) => Err(PromptRunError::TurnCompletedWithoutAssistantText(
                err.into_failure(PromptTurnTerminalState::CompletedWithoutAssistantText))),
            None => Err(PromptRunError::EmptyAssistantText),
        }
    } else {
        Ok(text)
    }
}

/// What a run does once collecting its turn stopped: the result, and
/// whether the turn is to be interrupted (after a timeout).
#[derive(Debug)]
pub struct TurnOutcome {
    pub result: Result<String, PromptRunError>,
    pub interrupt: bool,
}

/// Collection stopped on a timeout (its own or that of the lag probe).
pub open spec fn is_collect_timeout(collected: Result<(TurnTerminalEvent, Option<LaggedTurnTerminal>), TurnCollectError>) -> bool {
    collected matches Err(TurnCollectError::Timeout) || collected matches Err(TurnCollectError::LagProbe(RpcError::Timeout))
}

/// `r` is the result of a completed turn.
pub open spec fn completed_result(
    r: Result<String, PromptRunError>,
    stream_text: Seq<char>,
    lagged: Option<LaggedTurnTerminal>,
    last_turn_error: Option<PromptTurnErrorSignal>,
) -> bool {
    let lt = match lagged {
        Some(LaggedTurnTerminal::Completed { assistant_text: Some(t) }) => Some(t@),
        _ => None,
    };
    let text = spec_final_text(stream_text, lt);
    if text.len() > 0 {
        r matches Ok(s) && s@ == text
    } else {
        match last_turn_error {
            Some(sig) => r matches Err(PromptRunError::TurnCompletedWithoutAssistantText(f))
                && f.terminal_state == PromptTurnTerminalState::CompletedWithoutAssistantText
                && f.source_method == sig.source_method && f.code == sig.code && f.message == sig.message,
            None => r matches Err(PromptRunError::EmptyAssistantText),
        }
    }
}

/// `r` is the result of a failed turn.
pub open spec fn failed_result(
    r: Result<String, PromptRunError>,
    lagged: Option<LaggedTurnTerminal>,
    last_turn_error: Option<PromptTurnErrorSignal>,
) -> bool {
    match last_turn_error {
        Some(sig) => r matches Err(PromptRunError::TurnFailedWithContext(f))
            && f.terminal_state == PromptTurnTerminalState::Failed
            && f.source_method == sig.source_method && f.code == sig.code && f.message == sig.message,
        None => match lagged {
            Some(LaggedTurnTerminal::Failed { message: Some(m) }) => r matches Err(PromptRunError::TurnFailedWithContext(f))
                && f.terminal_state == PromptTurnTerminalState::Failed
                && f.source_method@ == "thread/read"@ && f.code is None && f.message@ == m@,
            _ => r matches Err(PromptRunError::TurnFailed),
        },
    }
}

/// `r` is the result of a turn whose collection ended with `collected`.
pub open spec fn turn_result(
    r: Result<String, PromptRunError>,
    collected: Result<(TurnTerminalEvent, Option<LaggedTurnTerminal>), TurnCollectError>,
    stream_text: Seq<char>,
    last_turn_error: Option<PromptTurnErrorSignal>,
    timeout_ms: u64,
) -> bool {
    match collected {
        Err(TurnCollectError::Timeout) => r matches Err(PromptRunError::Timeout(t)) && t == timeout_ms,
        Err(TurnCollectError::LagProbe(RpcError::Timeout)) => r matches Err(PromptRunError::Timeout(t)) && t == timeout_ms,
        Err(TurnCollectError::StreamClosed(why)) =>
            r matches Err(PromptRunError::Runtime(RuntimeError::Internal(m))) && m@ == "live stream closed: "@ + why@,
        Err(TurnCollectError::EventBudgetExceeded) =>
            r matches Err(PromptRunError::Runtime(RuntimeError::Internal(m)))
                && m@ == "turn event budget exhausted while collecting assistant output"@,
        Err(TurnCollectError::TargetEnvelope(e)) => r == Err::<String, PromptRunError>(PromptRunError::Rpc(e)),
        Err(TurnCollectError::LagProbe(e)) => r == Err::<String, PromptRunError>(PromptRunError::Rpc(e)),
        Ok((TurnTerminalEvent::Completed, lagged)) => completed_result(r, stream_text, lagged, last_turn_error),
        Ok((TurnTerminalEvent::Failed, lagged)) => failed_result(r, lagged, last_turn_error),
        Ok((_, _)) => r matches Err(PromptRunError::TurnInterrupted),
    }
}

/// Result of a turn from how its collection ended:
/// - a timeout (also of the lag probe) interrupts the turn and fails with
///   the run timeout;
/// - a closed stream or exhausted event budget is an internal error;
/// - other RPC errors are passed on;
/// - a completed turn gives its final text (see `spec_final_text`);
/// - a failed turn reports the last error signal, else the failure message
///   read back after lag, else a bare failure;
/// - an interrupted or cancelled turn is an interruption.
pub fn prompt_turn_outcome(
    collected: Result<(TurnTerminalEvent, Option<LaggedTurnTerminal>), TurnCollectError>,
    stream_text: String,
    last_turn_error: Option<PromptTurnErrorSignal>,
    timeout_ms: u64,
) -> (o: TurnOutcome)
    ensures
        o.interrupt == is_collect_timeout(collected),
        turn_result(o.result, collected, stream_text@, last_turn_error, timeout_ms),
{
    match collected {
        Err(TurnCollectError::Timeout) => TurnOutcome { result: Err(PromptRunError::Timeout(timeout_ms)), interrupt: true },
        Err(TurnCollectError::StreamClosed(why)) => {
            let mut m = owned("live stream closed: ");
            push_str(&mut m, why.as_str());
            TurnOutcome { result: Err(PromptRunError::Runtime(RuntimeError::Internal(m))), interrupt: false }
        },
        Err(TurnCollectError::EventBudgetExceeded) => TurnOutcome {
            result: Err(PromptRunError::Runtime(RuntimeError::Internal(
                owned("turn event budget exhausted while collecting assistant output")))),
            interrupt: false,
        },
        Err(TurnCollectError::TargetEnvelope(e)) => TurnOutcome { result: Err(PromptRunError::Rpc(e)), interrupt: false },
        Err(TurnCollectError::LagProbe(e)) => match e {
            RpcError::Timeout => TurnOutcome { result: Err(PromptRunError::Timeout(timeout_ms)), interrupt: true },
            other => TurnOutcome { result: Err(PromptRunError::Rpc(other)), interrupt: false },
        },
        Ok((terminal, lagged)) => match terminal {
            TurnTerminalEvent::Completed => {
                let lagged_text = match lagged {
                    Some(LaggedTurnTerminal::Completed { assistant_text }) => assistant_text,
                    _ => None,
                };
                TurnOutcome {
                    result: finalize_prompt_turn_assistant_text(stream_text, lagged_text, last_turn_error),
                    interrupt: false,
                }
            },
            TurnTerminalEvent::Failed => {
                let result = match last_turn_error {
                    Some(err) => Err(PromptRunError::TurnFailedWithContext(err.into_failure(PromptTurnTerminalState::Failed))),
                    None => match lagged {
                        Some(LaggedTurnTerminal::Failed { message: Some(message) }) => Err(PromptRunError::TurnFailedWithContext(
                            PromptTurnFailure {
                                terminal_state: PromptTurnTerminalState::Failed,
                                source_method: owned("thread/read"),
                                code: None,
                                message,
                            })),
                        _ => Err(PromptRunError::TurnFailed),
                    },
                };
                TurnOutcome { result, interrupt: false }
            },
            _ => TurnOutcome { result: Err(PromptRunError::TurnInterrupted), interrupt: false },
        },
    }
}

/// How a turn's event method ends the turn, if it does.
pub open spec fn spec_turn_terminal(method: Option<String>) -> Option<TurnTerminalEvent> {
    match method {
        Some(m) => if m@ == "turn/completed"@ {
            Some(TurnTerminalEvent::Completed)
        } else if m@ == "turn/failed"@ {
            Some(TurnTerminalEvent::Failed)
        } else if m@ == "turn/interrupted"@ {
            Some(TurnTerminalEvent::Interrupted)
        } else {
            None
        },
        None => None,
    }
}

/// The end of a turn read back after lag.
pub open spec fn lagged_terminal_event(t: LaggedTurnTerminal) -> TurnTerminalEvent {
    match t {
        LaggedTurnTerminal::Completed { .. } => TurnTerminalEvent::Completed,
        LaggedTurnTerminal::Failed { .. } => TurnTerminalEvent::Failed,
        LaggedTurnTerminal::Interrupted => TurnTerminalEvent::Interrupted,
    }
}

/// A turn whose events are being collected: its thread and turn, the
/// assistant text gathered so far and the last error signal seen.
#[derive(Debug)]
pub struct TurnCollectState {
    pub thread_id: String,
    pub turn_id: String,
    pub collector: AssistantTextCollector,
    pub last_turn_error: Option<PromptTurnErrorSignal>,
}

/// What the live stream gave while a turn is collected.
#[derive(Debug)]
pub enum TurnStreamEvent {
    /// An event.
    Envelope(Envelope),
    /// Events were missed.
    Lagged,
    /// The turn's state read back with `thread/read` after a lag: how it
    /// ended, or nothing while it is still running; or the read's error.
    LagProbeAnswered(Result<Option<LaggedTurnTerminal>, RpcError>),
    /// The stream closed; the text says why.
    Closed(String),
    /// The run's time ran out.
    TimedOut,
}

/// What the collector of a turn does next.
#[derive(Debug)]
pub enum TurnCollectAction {
    /// Wait for the next event.
    Continue,
    /// Read the turn back with `thread/read`.
    ReadTurnAfterLag,
    /// Stop: how the turn ended, or why collection stopped.
    Finish(Result<(TurnTerminalEvent, Option<LaggedTurnTerminal>), TurnCollectError>),
}

impl TurnCollectState {
    /// Collection of turn `turn_id` on thread `thread_id`, with nothing seen.
    pub fn new(thread_id: String, turn_id: String) -> (s: Self)
        ensures
            s.thread_id == thread_id,
            s.turn_id == turn_id,
            s.collector@ == (Set::<Seq<char>>::empty(), Set::<Seq<char>>::empty(), Seq::<char>::empty()),
            s.last_turn_error is None,
    {
        TurnCollectState { thread_id, turn_id, collector: AssistantTextCollector::new(), last_turn_error: None }
    }
}

/// `e` belongs to thread `thread_id` and turn `turn_id`.
pub open spec fn envelope_of_turn(e: Envelope, thread_id: Seq<char>, turn_id: Seq<char>) -> bool {
    opt_string_seq(e.thread_id) == Some(thread_id) && opt_string_seq(e.turn_id) == Some(turn_id)
}

/// True when `v` is the text `t`.
fn opt_is(v: &Option<String>, t: &str) -> (r: bool)
    ensures
        r == (opt_string_seq(*v) == Some(t@)),
{
    match v {
        Some(x) => str_eq(x.as_str(), t),
        None => false,
    }
}

/// How an event method ends a turn (see `spec_turn_terminal`).
fn turn_terminal(method: &Option<String>) -> (r: Option<TurnTerminalEvent>)
    ensures
        r == spec_turn_terminal(*method),
{
    match method {
        Some(m) => if str_eq(m.as_str(), "turn/completed") {
            Some(TurnTerminalEvent::Completed)
        } else if str_eq(m.as_str(), "turn/failed") {
            Some(TurnTerminalEvent::Failed)
        } else if str_eq(m.as_str(), "turn/interrupted") {
            Some(TurnTerminalEvent::Interrupted)
        } else {
            None
        },
        None => None,
    }
}

/// One step of collecting a turn's events: events of other threads or
/// turns change nothing; an event of the turn adds its assistant text,
/// records the error it signals, and ends collection when it completes,
/// fails or interrupts the turn; a lag asks for the turn to be read back,
/// whose answer ends collection as the turn ended (or waits on while it
/// runs); a closed stream, a failed read-back and running out of time stop
/// collection.
pub fn turn_collect_step(s: TurnCollectState, ev: TurnStreamEvent) -> (r: (TurnCollectState, TurnCollectAction))
    ensures
        r.0.thread_id == s.thread_id,
        r.0.turn_id == s.turn_id,
        match ev {
            TurnStreamEvent::Envelope(e) => if !envelope_of_turn(e, s.thread_id@, s.turn_id@) {
                r.0.collector@ == s.collector@ && r.0.last_turn_error == s.last_turn_error
                    && r.1 is Continue
            } else {
                &&& r.0.collector@ == collector_step(s.collector@, e)
                &&& match spec_turn_error_signal(e) {
                    Some((m, c, t)) => r.0.last_turn_error matches Some(x)
                        && x.source_method@ == m && x.code == c && x.message@ == t,
                    None => r.0.last_turn_error == s.last_turn_error,
                }
                &&& match spec_turn_terminal(e.method) {
                    Some(t) => r.1 == TurnCollectAction::Finish(Ok((t, None))),
                    None => r.1 is Continue,
                }
            },
            TurnStreamEvent::Lagged => r.0.collector@ == s.collector@ && r.0.last_turn_error == s.last_turn_error
                && r.1 is ReadTurnAfterLag,
            TurnStreamEvent::LagProbeAnswered(a) => r.0.collector@ == s.collector@ && r.0.last_turn_error == s.last_turn_error
                && match a {
                    Ok(Some(t)) => r.1 == TurnCollectAction::Finish(Ok((lagged_terminal_event(t), Some(t)))),
                    Ok(None) => r.1 is Continue,
                    Err(e) => r.1 == TurnCollectAction::Finish(Err(TurnCollectError::LagProbe(e))),
                },
            TurnStreamEvent::Closed(w) => r.0.collector@ == s.collector@ && r.0.last_turn_error == s.last_turn_error
                && r.1 == TurnCollectAction::Finish(Err(TurnCollectError::StreamClosed(w))),
            TurnStreamEvent::TimedOut => r.0.collector@ == s.collector@ && r.0.last_turn_error == s.last_turn_error
                && r.1 == TurnCollectAction::Finish(Err(TurnCollectError::Timeout)),
        },
{
    let TurnCollectState { thread_id, turn_id, collector, last_turn_error } = s;
    let mut collector = collector;
    let mut last_turn_error = last_turn_error;
    match ev {
        TurnStreamEvent::Envelope(e) => {
            if !(opt_is(&e.thread_id, thread_id.as_str()) && opt_is(&e.turn_id, turn_id.as_str())) {
                return (TurnCollectState { thread_id, turn_id, collector, last_turn_error }, TurnCollectAction::Continue);
            }
            collector.push_envelope(&e);
            match extract_turn_error_signal(&e) {
                Some(sig) => { last_turn_error = Some(sig); },
                None => {},
            }
            let action = match turn_terminal(&e.method) {
                Some(t) => TurnCollectAction::Finish(Ok((t, None))),
                None => TurnCollectAction::Continue,
            };
            (TurnCollectState { thread_id, turn_id, collector, last_turn_error }, action)
        },
        TurnStreamEvent::Lagged =>
            (TurnCollectState { thread_id, turn_id, collector, last_turn_error }, TurnCollectAction::ReadTurnAfterLag),
        TurnStreamEvent::LagProbeAnswered(a) => {
            let action = match a {
                Ok(Some(t)) => {
                    let ev = match &t {
                        LaggedTurnTerminal::Completed { .. } => TurnTerminalEvent::Completed,
                        LaggedTurnTerminal::Failed { .. } => TurnTerminalEvent::Failed,
                        LaggedTurnTerminal::Interrupted => TurnTerminalEvent::Interrupted,
                    };
                    TurnCollectAction::Finish(Ok((ev, Some(t))))
                },
                Ok(None) => TurnCollectAction::Continue,
                Err(e) => TurnCollectAction::Finish(Err(TurnCollectError::LagProbe(e))),
            };
            (TurnCollectState { thread_id, turn_id, collector, last_turn_error }, action)
        },
        TurnStreamEvent::Closed(w) =>
            (TurnCollectState { thread_id, turn_id, collector, last_turn_error },
             TurnCollectAction::Finish(Err(TurnCollectError::StreamClosed(w)))),
        TurnStreamEvent::TimedOut =>
            (TurnCollectState { thread_id, turn_id, collector, last_turn_error },
             TurnCollectAction::Finish(Err(TurnCollectError::Timeout))),
    }
}

/// The answer of a prompt run.
#[derive(Debug, PartialEq, Eq)]
pub struct PromptRunResult {
    pub thread_id: String,
    pub turn_id: String,
    pub assistant_text: String,
}

/// Where a prompt run stands.
#[derive(Debug)]
pub enum PromptRunPhase {
    /// Waiting for the pre-run hooks.
    RunningPreRunHooks,
    /// Waiting for the thread to be started, or resumed when `requested`.
    OpeningThread { requested: Option<String> },
    /// Waiting for the pre-turn hooks on the thread.
    RunningPreTurnHooks { thread_id: String },
    /// Waiting for `turn/start` on the thread.
    StartingTurn { thread_id: String },
    /// Waiting for the turn's events to be collected.
    CollectingTurn { thread_id: String, turn_id: String },
    /// Waiting for the post-turn hooks; the run then ends with `result`.
    RunningPostTurnHooks { result: Result<PromptRunResult, PromptRunError> },
    /// Waiting for the post-run hooks; the run then ends with `result`.
    RunningPostRunHooks { result: Result<PromptRunResult, PromptRunError> },
    /// The run is over.
    Finished,
}

/// What the caller of a prompt run does next.
#[derive(Debug)]
pub enum PromptRunAction {
    /// Run the pre-run hooks with this context and report the prompt,
    /// model and attachments their decisions leave.
    RunPreRunHooks(HookContext),
    /// Send `thread/start` with these params.
    StartThread(ThreadStartParams),
    /// Send `thread/resume` for this thread with these params.
    ResumeThread { thread_id: String, params: ThreadStartParams },
    /// Run the pre-turn hooks with this context and report the prompt,
    /// model and attachments their decisions leave.
    RunPreTurnHooks(HookContext),
    /// Send `turn/start` on this thread with these params.
    StartTurn { thread_id: String, params: TurnStartParams },
    /// Collect this turn's events for at most `timeout_ms`.
    CollectTurn { thread_id: String, turn_id: String, timeout_ms: u64 },
    /// Interrupt the context's turn first (best effort) when `interrupt`,
    /// then run the post-turn hooks with this context.
    RunPostTurnHooks { context: HookContext, interrupt: bool },
    /// Run the post-run hooks with this context.
    RunPostRunHooks(HookContext),
    /// Interrupt this turn (best effort) and end the run with `result`.
    InterruptAndFinish { thread_id: String, turn_id: String, result: Result<PromptRunResult, PromptRunError> },
    /// End the run with `result`.
    Finish(Result<PromptRunResult, PromptRunError>),
}

/// What happened to the last action.
#[derive(Debug)]
pub enum PromptRunEvent {
    /// The pre-run hooks ran; their decisions left this prompt, model and
    /// attachments.
    PreRunHooksRan { prompt: String, model: Option<String>, attachments: Vec<PromptAttachment> },
    /// The thread was started or resumed: its id, or the error.
    ThreadOpened(Result<String, RpcError>),
    /// The pre-turn hooks ran; their decisions left this prompt, model and
    /// attachments.
    PreTurnHooksRan { prompt: String, model: Option<String>, attachments: Vec<PromptAttachment> },
    /// The turn was started: its id, or the error.
    TurnStarted(Result<String, RpcError>),
    /// Collection ended: how, the assistant text streamed, and the last
    /// error signal seen.
    TurnCollected {
        collected: Result<(TurnTerminalEvent, Option<LaggedTurnTerminal>), TurnCollectError>,
        stream_text: String,
        last_turn_error: Option<PromptTurnErrorSignal>,
    },
    /// The post-turn hooks ran.
    PostTurnHooksRan,
    /// The post-run hooks ran.
    PostRunHooksRan,
}

/// One prompt run: its params, the effort of its turn, whether hooks are
/// configured, the thread it was asked to continue, the model it runs with
/// after its pre-run hooks, and where it stands.
#[derive(Debug)]
pub struct PromptRun {
    pub params: PromptRunParams,
    pub effort: ReasoningEffort,
    pub hooks: bool,
    pub requested: Option<String>,
    pub run_model: Option<String>,
    pub phase: PromptRunPhase,
}

/// The effort of a run's turn: the requested one, else the default.
pub open spec fn spec_effort(p: PromptRunParams) -> ReasoningEffort {
    match p.effort {
        Some(e) => e,
        None => ReasoningEffort::Medium,
    }
}

/// The context of the pre-run hooks of run `p` asked to continue
/// `requested`; the prompt goes in the `cwd` slot.
pub open spec fn pre_run_context(p: PromptRunParams, requested: Option<String>, c: HookContext) -> bool {
    &&& c.phase == HookPhase::PreRun
    &&& c.cwd == Some(p.prompt)
    &&& c.model == p.model
    &&& c.thread_id == requested
    &&& c.turn_id is None
    &&& c.main_ok is None
}

/// The context of the pre-turn hooks of run `p` on `thread_id`; the
/// prompt goes in the `cwd` slot.
pub open spec fn pre_turn_context(p: PromptRunParams, thread_id: Seq<char>, c: HookContext) -> bool {
    &&& c.phase == HookPhase::PreTurn
    &&& c.cwd == Some(p.prompt)
    &&& c.model == p.model
    &&& opt_string_seq(c.thread_id) == Some(thread_id)
    &&& c.turn_id is None
    &&& c.main_ok is None
}

/// The context of the post-turn hooks of run `p` on `thread_id`, for the
/// turn `turn_id` when one was started, after a turn that succeeded or not.
pub open spec fn post_turn_context(p: PromptRunParams, thread_id: Seq<char>, turn_id: Option<Seq<char>>, ok: bool, c: HookContext) -> bool {
    &&& c.phase == HookPhase::PostTurn
    &&& c.cwd == Some(p.cwd)
    &&& c.model == p.model
    &&& opt_string_seq(c.thread_id) == Some(thread_id)
    &&& opt_string_seq(c.turn_id) == turn_id
    &&& c.main_ok == Some(ok)
}

/// The context of the post-run hooks of a run in `cwd` with `run_model`
/// asked to continue `requested`, ending with `result`: the result's
/// thread, else the requested one.
pub open spec fn post_run_context(
    cwd: String,
    run_model: Option<String>,
    requested: Option<String>,
    result: Result<PromptRunResult, PromptRunError>,
    c: HookContext,
) -> bool {
    &&& c.phase == HookPhase::PostRun
    &&& c.cwd == Some(cwd)
    &&& c.model == run_model
    &&& opt_string_seq(c.thread_id) == match result {
        Ok(v) => Some(v.thread_id@),
        Err(_) => opt_string_seq(requested),
    }
    &&& c.turn_id is None
    &&& c.main_ok == Some(result is Ok)
}

/// `(run, action)` ends the run `old` with `result`: through the post-run
/// hooks when hooks are configured, else at once; nothing else of the run
/// changes.
pub open spec fn ends_with(old: PromptRun, run: PromptRun, action: PromptRunAction, result: Result<PromptRunResult, PromptRunError>) -> bool {
    &&& run.params == old.params
    &&& run.run_model == old.run_model
    &&& if old.hooks {
        &&& run.phase == (PromptRunPhase::RunningPostRunHooks { result })
        &&& action matches PromptRunAction::RunPostRunHooks(c)
        &&& post_run_context(old.params.cwd, old.run_model, old.requested, result, c)
    } else {
        run.phase is Finished && action == PromptRunAction::Finish(result)
    }
}

/// The result with which `(run, action)` ends a run, if it does.
pub open spec fn ending(run: PromptRun, action: PromptRunAction) -> Option<Result<PromptRunResult, PromptRunError>> {
    match action {
        PromptRunAction::Finish(x) => Some(x),
        PromptRunAction::RunPostRunHooks(_) => match run.phase {
            PromptRunPhase::RunningPostRunHooks { result } => Some(result),
            _ => None,
        },
        _ => None,
    }
}

/// `(run, action)` ends the run `old` (see `ends_with`) with a result
/// that `ok` accepts.
pub open spec fn ends_by(old: PromptRun, run: PromptRun, action: PromptRunAction) -> bool {
    &&& ending(run, action) is Some
    &&& ends_with(old, run, action, ending(run, action)->0)
}

/// The run `p` with the prompt, model and attachments that its hooks left.
pub open spec fn after_pre_hooks(p: PromptRunParams, prompt: String, model: Option<String>, attachments: Vec<PromptAttachment>) -> PromptRunParams {
    PromptRunParams { prompt, model, attachments, ..p }
}

/// The text of a resumed thread that is not the one asked for.
pub open spec fn mismatch_message(requested: Seq<char>, actual: Seq<char>) -> Seq<char> {
    "thread/resume returned mismatched thread id: requested="@ + requested + " actual="@ + actual
}

/// The error of a resumed thread that is not the one asked for.
pub(crate) fn resume_mismatch(requested: &str, actual: &str) -> (e: RpcError)
    ensures
        is_invalid_request_with(e, mismatch_message(requested@, actual@)),
{
    let mut m = owned("thread/resume returned mismatched thread id: requested=");
    push_str(&mut m, requested);
    push_str(&mut m, " actual=");
    push_str(&mut m, actual);
    RpcError::InvalidRequest(m)
}

/// A copy of the run params with the given prompt, model and attachments.
fn with_hook_prompt(params: PromptRunParams, prompt: String, model: Option<String>, attachments: Vec<PromptAttachment>) -> (r: PromptRunParams)
    ensures
        r == after_pre_hooks(params, prompt, model, attachments),
{
    PromptRunParams { prompt, model, attachments, ..params }
}

/// A copy of an optional text.
fn clone_opt(s: &Option<String>) -> (r: Option<String>)
    ensures
        r == *s,
{
    match s {
        Some(t) => Some(t.clone()),
        None => None,
    }
}

/// The post-turn context of run `params` on `thread_id`.
fn post_turn(params: &PromptRunParams, thread_id: &str, turn_id: Option<String>, ok: bool) -> (c: HookContext)
    ensures
        post_turn_context(*params, thread_id@, opt_string_seq(turn_id), ok, c),
{
    HookContext {
        phase: HookPhase::PostTurn,
        cwd: Some(params.cwd.clone()),
        model: clone_opt(&params.model),
        thread_id: Some(owned(thread_id)),
        turn_id,
        main_ok: Some(ok),
    }
}

impl PromptRun {
    /// Ends this run with `result` (see `ends_with`).
    fn finish(self, result: Result<PromptRunResult, PromptRunError>) -> (r: (PromptRun, PromptRunAction))
        ensures
            r.0.effort == self.effort,
            r.0.hooks == self.hooks,
            r.0.requested == self.requested,
            ends_with(self, r.0, r.1, result),
            ending(r.0, r.1) == Some(result),
    {
        let PromptRun { params, effort, hooks, requested, run_model, phase: _ } = self;
        if hooks {
            let thread_id = match &result {
                Ok(v) => Some(v.thread_id.clone()),
                Err(_) => clone_opt(&requested),
            };
            let ok = result.is_ok();
            let c = HookContext {
                phase: HookPhase::PostRun,
                cwd: Some(params.cwd.clone()),
                model: clone_opt(&run_model),
                        thread_id,
                turn_id: None,
                main_ok: Some(ok),
            };
            (PromptRun { params, effort, hooks, requested, run_model, phase: PromptRunPhase::RunningPostRunHooks { result } },
             PromptRunAction::RunPostRunHooks(c))
        } else {
            (PromptRun { params, effort, hooks, requested, run_model, phase: PromptRunPhase::Finished },
             PromptRunAction::Finish(result))
        }
    }

    /// Opens the run's thread: attachments that refer to missing paths
    /// end it; so does a sandbox policy that the escalation gate refuses,
    /// as an invalid request; otherwise the requested thread is resumed,
    /// or a new one started, with the run's thread overrides.
    fn open_thread(self) -> (r: (PromptRun, PromptRunAction))
        ensures
            r.0.effort == self.effort,
            r.0.hooks == self.hooks,
            r.0.requested == self.requested,
            r.0.params == self.params,
            r.0.run_model == self.run_model,
            opened(self, r.0, r.1),
    {
        let checked = validate_prompt_attachments(self.params.cwd.as_str(), &self.params.attachments);
        let ghost g = checked;
        match checked {
            Err(e) => {
                return self.finish(Err(e));
            },
            Ok(()) => {},
        }
        assert(g is Ok);
        let start = thread_start_params_from_prompt(&self.params);
        match validate_thread_start_security(&start) {
            Err(e) => {
                assert(thread_start_from_prompt(self.params, start));
                return self.finish(Err(PromptRunError::Rpc(e)));
            },
            Ok(()) => {},
        }
        let PromptRun { params, effort, hooks, requested, run_model, phase: _ } = self;
        match requested {
            Some(t) => {
                let t2 = t.clone();
                let t3 = t.clone();
                (PromptRun { params, effort, hooks, requested: Some(t), run_model, phase: PromptRunPhase::OpeningThread { requested: Some(t3) } },
                 PromptRunAction::ResumeThread { thread_id: t2, params: start })
            },
            None => (PromptRun { params, effort, hooks, requested: None, run_model, phase: PromptRunPhase::OpeningThread { requested: None } },
                PromptRunAction::StartThread(start)),
        }
    }

    /// Starts a run, on `thread_id` when given, else on a new thread, with
    /// the run's and the turn's hook phases when `hooks` (hooks are
    /// configured): the pre-run hooks come first; without hooks the thread
    /// is opened at once (see `opened`).
    pub fn start(params: PromptRunParams, thread_id: Option<String>, hooks: bool) -> (r: (PromptRun, PromptRunAction))
        ensures
            r.0.effort == spec_effort(params),
            r.0.params == params,
            r.0.hooks == hooks,
            r.0.requested == thread_id,
            r.0.run_model == params.model,
            hooks ==> r.0.phase is RunningPreRunHooks
                && (r.1 matches PromptRunAction::RunPreRunHooks(c) && pre_run_context(params, thread_id, c)),
            !hooks ==> opened(
                PromptRun { params, effort: spec_effort(params), hooks, requested: thread_id, run_model: params.model, phase: PromptRunPhase::RunningPreRunHooks },
                r.0, r.1),
    {
        let effort = match params.effort {
            Some(e) => e,
            None => DEFAULT_REASONING_EFFORT,
        };
        let run_model = clone_opt(&params.model);
        if hooks {
            let c = HookContext {
                phase: HookPhase::PreRun,
                cwd: Some(params.prompt.clone()),
                model: clone_opt(&params.model),
                thread_id: clone_opt(&thread_id),
                turn_id: None,
                main_ok: None,
            };
            (PromptRun { params, effort, hooks, requested: thread_id, run_model, phase: PromptRunPhase::RunningPreRunHooks },
             PromptRunAction::RunPreRunHooks(c))
        } else {
            let run = PromptRun { params, effort, hooks, requested: thread_id, run_model, phase: PromptRunPhase::RunningPreRunHooks };
            run.open_thread()
        }
    }

    /// Takes in what happened to the last action and says what to do next:
    /// after the pre-run hooks the thread is opened (see `opened`); an
    /// opened thread (the one asked for, when resumed) gets its pre-turn
    /// hooks when hooks are configured, then its turn started; a started
    /// turn gets collected; the turn's outcome (see `prompt_turn_outcome`),
    /// or a failure to start it, goes through the post-turn hooks once when
    /// hooks are configured; every end of the run goes through the post-run
    /// hooks once when hooks are configured (see `ends_with`); an event that
    /// does not fit the phase ends the run with an internal error.
    pub fn step(self, event: PromptRunEvent) -> (r: (PromptRun, PromptRunAction))
        ensures
            r.0.effort == self.effort,
            r.0.hooks == self.hooks,
            r.0.requested == self.requested,
            match (self.phase, event) {
                (PromptRunPhase::RunningPreRunHooks, PromptRunEvent::PreRunHooksRan { prompt, model, attachments }) =>
                    opened(PromptRun { params: after_pre_hooks(self.params, prompt, model, attachments), run_model: model, ..self }, r.0, r.1),
                (PromptRunPhase::OpeningThread { requested }, PromptRunEvent::ThreadOpened(Ok(t))) => {
                    &&& r.0.params == self.params
                    &&& r.0.run_model == self.run_model
                    &&& if requested is Some && requested.unwrap()@ != t@ {
                        &&& ends_by(self, r.0, r.1)
                        &&& ending(r.0, r.1) matches Some(Err(PromptRunError::Rpc(e)))
                        &&& is_invalid_request_with(e, mismatch_message(requested.unwrap()@, t@))
                    } else if self.hooks {
                        &&& r.0.phase == (PromptRunPhase::RunningPreTurnHooks { thread_id: t })
                        &&& r.1 matches PromptRunAction::RunPreTurnHooks(c)
                        &&& pre_turn_context(self.params, t@, c)
                    } else {
                        &&& r.0.phase == (PromptRunPhase::StartingTurn { thread_id: t })
                        &&& r.1 matches PromptRunAction::StartTurn { thread_id: at, params: tp }
                        &&& at == t
                        &&& turn_start_from_prompt(self.params, self.effort, tp)
                    }
                },
                (PromptRunPhase::OpeningThread { .. }, PromptRunEvent::ThreadOpened(Err(e))) =>
                    ends_with(self, r.0, r.1, Err(PromptRunError::Rpc(e))),
                (PromptRunPhase::RunningPreTurnHooks { thread_id }, PromptRunEvent::PreTurnHooksRan { prompt, model, attachments }) => {
                    &&& r.0.params == after_pre_hooks(self.params, prompt, model, attachments)
                    &&& r.0.run_model == self.run_model
                    &&& r.0.phase == (PromptRunPhase::StartingTurn { thread_id })
                    &&& r.1 matches PromptRunAction::StartTurn { thread_id: at, params: tp }
                    &&& at == thread_id
                    &&& turn_start_from_prompt(r.0.params, self.effort, tp)
                },
                (PromptRunPhase::StartingTurn { thread_id }, PromptRunEvent::TurnStarted(Ok(u))) =>
                    r.0.params == self.params && r.0.run_model == self.run_model
                    && r.0.phase == (PromptRunPhase::CollectingTurn { thread_id, turn_id: u })
                    && r.1 == (PromptRunAction::CollectTurn { thread_id, turn_id: u, timeout_ms: self.params.timeout_ms }),
                (PromptRunPhase::StartingTurn { thread_id }, PromptRunEvent::TurnStarted(Err(e))) => {
                    &&& r.0.params == self.params
                    &&& r.0.run_model == self.run_model
                    &&& if self.hooks {
                        &&& r.0.phase == (PromptRunPhase::RunningPostTurnHooks { result: Err(PromptRunError::Rpc(e)) })
                        &&& r.1 matches PromptRunAction::RunPostTurnHooks { context, interrupt }
                        &&& !interrupt
                        &&& post_turn_context(self.params, thread_id@, None, false, context)
                    } else {
                        r.0.phase is Finished && r.1 == PromptRunAction::Finish(Err(PromptRunError::Rpc(e)))
                    }
                },
                (PromptRunPhase::CollectingTurn { thread_id, turn_id },
                 PromptRunEvent::TurnCollected { collected, stream_text, last_turn_error }) => {
                    &&& r.0.params == self.params
                    &&& r.0.run_model == self.run_model
                    &&& if self.hooks {
                        &&& r.0.phase matches PromptRunPhase::RunningPostTurnHooks { result }
                        &&& run_result(result, thread_id@, turn_id@, collected, stream_text@, last_turn_error, self.params.timeout_ms)
                        &&& r.1 matches PromptRunAction::RunPostTurnHooks { context, interrupt }
                        &&& interrupt == is_collect_timeout(collected)
                        &&& post_turn_context(self.params, thread_id@, Some(turn_id@), result is Ok, context)
                    } else {
                        &&& r.0.phase is Finished
                        &&& match r.1 {
                            PromptRunAction::InterruptAndFinish { thread_id: it, turn_id: iu, result } =>
                                is_collect_timeout(collected) && it == thread_id && iu == turn_id
                                && run_result(result, thread_id@, turn_id@, collected, stream_text@, last_turn_error, self.params.timeout_ms),
                            PromptRunAction::Finish(result) => !is_collect_timeout(collected)
                                && run_result(result, thread_id@, turn_id@, collected, stream_text@, last_turn_error, self.params.timeout_ms),
                            _ => false,
                        }
                    }
                },
                (PromptRunPhase::RunningPostTurnHooks { result }, PromptRunEvent::PostTurnHooksRan) =>
                    ends_with(self, r.0, r.1, result),
                (PromptRunPhase::RunningPostRunHooks { result }, PromptRunEvent::PostRunHooksRan) =>
                    r.0.params == self.params && r.0.run_model == self.run_model
                    && r.0.phase is Finished && r.1 == PromptRunAction::Finish(result),
                (_, _) => r.0.params == self.params && r.0.run_model == self.run_model && r.0.phase is Finished
                    && r.1 matches PromptRunAction::Finish(Err(PromptRunError::Runtime(RuntimeError::Internal(_)))),
            },
    {
        let PromptRun { params, effort, hooks, requested: asked, run_model, phase } = self;
        match phase {
            PromptRunPhase::RunningPreRunHooks => match event {
                PromptRunEvent::PreRunHooksRan { prompt, model, attachments } => {
                    let run_model = clone_opt(&model);
                    let params = with_hook_prompt(params, prompt, model, attachments);
                    let run = PromptRun { params, effort, hooks, requested: asked, run_model, phase: PromptRunPhase::RunningPreRunHooks };
                    run.open_thread()
                },
                _ => out_of_order(params, effort, hooks, asked, run_model),
            },
            PromptRunPhase::OpeningThread { requested } => match event {
                PromptRunEvent::ThreadOpened(Ok(t)) => {
                    match requested {
                        Some(q) => {
                            if !str_eq(q.as_str(), t.as_str()) {
                                let e = resume_mismatch(q.as_str(), t.as_str());
                                let run = PromptRun { params, effort, hooks, requested: asked, run_model, phase: PromptRunPhase::Finished };
                                return run.finish(Err(PromptRunError::Rpc(e)));
                            }
                        },
                        None => {},
                    }
                    if hooks {
                        let c = HookContext {
                            phase: HookPhase::PreTurn,
                            cwd: Some(params.prompt.clone()),
                            model: clone_opt(&params.model),
                            thread_id: Some(t.clone()),
                            turn_id: None,
                            main_ok: None,
                        };
                        (PromptRun { params, effort, hooks, requested: asked, run_model, phase: PromptRunPhase::RunningPreTurnHooks { thread_id: t } },
                         PromptRunAction::RunPreTurnHooks(c))
                    } else {
                        let tp = turn_start_params_from_prompt(&params, effort);
                        let t2 = t.clone();
                        (PromptRun { params, effort, hooks, requested: asked, run_model, phase: PromptRunPhase::StartingTurn { thread_id: t } },
                         PromptRunAction::StartTurn { thread_id: t2, params: tp })
                    }
                },
                PromptRunEvent::ThreadOpened(Err(e)) => {
                    let run = PromptRun { params, effort, hooks, requested: asked, run_model, phase: PromptRunPhase::Finished };
                    run.finish(Err(PromptRunError::Rpc(e)))
                },
                _ => out_of_order(params, effort, hooks, asked, run_model),
            },
            PromptRunPhase::RunningPreTurnHooks { thread_id } => match event {
                PromptRunEvent::PreTurnHooksRan { prompt, model, attachments } => {
                    let params = with_hook_prompt(params, prompt, model, attachments);
                    let tp = turn_start_params_from_prompt(&params, effort);
                    let t2 = thread_id.clone();
                    (PromptRun { params, effort, hooks, requested: asked, run_model, phase: PromptRunPhase::StartingTurn { thread_id } },
                     PromptRunAction::StartTurn { thread_id: t2, params: tp })
                },
                _ => out_of_order(params, effort, hooks, asked, run_model),
            },
            PromptRunPhase::StartingTurn { thread_id } => match event {
                PromptRunEvent::TurnStarted(Ok(u)) => {
                    let timeout_ms = params.timeout_ms;
                    let t2 = thread_id.clone();
                    let u2 = u.clone();
                    (PromptRun { params, effort, hooks, requested: asked, run_model, phase: PromptRunPhase::CollectingTurn { thread_id, turn_id: u } },
                     PromptRunAction::CollectTurn { thread_id: t2, turn_id: u2, timeout_ms })
                },
                PromptRunEvent::TurnStarted(Err(e)) => {
                    let result = Err(PromptRunError::Rpc(e));
                    if hooks {
                        let c = post_turn(&params, thread_id.as_str(), None, false);
                        (PromptRun { params, effort, hooks, requested: asked, run_model, phase: PromptRunPhase::RunningPostTurnHooks { result } },
                         PromptRunAction::RunPostTurnHooks { context: c, interrupt: false })
                    } else {
                        (PromptRun { params, effort, hooks, requested: asked, run_model, phase: PromptRunPhase::Finished },
                         PromptRunAction::Finish(result))
                    }
                },
                _ => out_of_order(params, effort, hooks, asked, run_model),
            },
            PromptRunPhase::CollectingTurn { thread_id, turn_id } => match event {
                PromptRunEvent::TurnCollected { collected, stream_text, last_turn_error } => {
                    let o = prompt_turn_outcome(collected, stream_text, last_turn_error, params.timeout_ms);
                    let result = match o.result {
                        Ok(text) => Ok(PromptRunResult { thread_id: thread_id.clone(), turn_id: turn_id.clone(), assistant_text: text }),
                        Err(e) => Err(e),
                    };
                    if hooks {
                        let ok = result.is_ok();
                        let c = post_turn(&params, thread_id.as_str(), Some(turn_id), ok);
                        (PromptRun { params, effort, hooks, requested: asked, run_model, phase: PromptRunPhase::RunningPostTurnHooks { result } },
                         PromptRunAction::RunPostTurnHooks { context: c, interrupt: o.interrupt })
                    } else if o.interrupt {
                        (PromptRun { params, effort, hooks, requested: asked, run_model, phase: PromptRunPhase::Finished },
                         PromptRunAction::InterruptAndFinish { thread_id, turn_id, result })
                    } else {
                        (PromptRun { params, effort, hooks, requested: asked, run_model, phase: PromptRunPhase::Finished },
                         PromptRunAction::Finish(result))
                    }
                },
                _ => out_of_order(params, effort, hooks, asked, run_model),
            },
            PromptRunPhase::RunningPostTurnHooks { result } => match event {
                PromptRunEvent::PostTurnHooksRan => {
                    let run = PromptRun { params, effort, hooks, requested: asked, run_model, phase: PromptRunPhase::Finished };
                    run.finish(result)
                },
                _ => out_of_order(params, effort, hooks, asked, run_model),
            },
            PromptRunPhase::RunningPostRunHooks { result } => match event {
                PromptRunEvent::PostRunHooksRan =>
                    (PromptRun { params, effort, hooks, requested: asked, run_model, phase: PromptRunPhase::Finished },
                     PromptRunAction::Finish(result)),
                _ => out_of_order(params, effort, hooks, asked, run_model),
            },
            PromptRunPhase::Finished => out_of_order(params, effort, hooks, asked, run_model),
        }
    }
}

/// `(run, action)` opens the thread of run `old` (whose params and run
/// model it keeps): a missing attachment ends the run with that error; a
/// refusal of the escalation gate ends it with that invalid request; else
/// the requested thread is resumed, or a new one started, with the run's
/// thread overrides.
pub open spec fn opened(old: PromptRun, run: PromptRun, action: PromptRunAction) -> bool {
    let params = old.params;
    &&& run.params == params
    &&& run.run_model == old.run_model
    &&& match ending(run, action) {
        Some(Err(PromptRunError::Rpc(e))) => ends_by(old, run, action)
            && (exists|present: Seq<bool>, v: Result<(), PromptRunError>| v is Ok
                && #[trigger] presence_outcome(params.cwd@, params.attachments@, present, v))
            && (exists|tp: ThreadStartParams| #[trigger] thread_start_from_prompt(params, tp)
                && (security_error(tp.sandbox_policy, tp.privileged_escalation_approved,
                    tp.approval_policy, opt_string_seq(tp.cwd)) matches Some(m)
                && is_invalid_request_with(e, m))),
        Some(Err(e)) => ends_by(old, run, action)
            && exists|present: Seq<bool>| #[trigger] presence_outcome(params.cwd@, params.attachments@, present, Err::<(), PromptRunError>(e)),
        Some(Ok(_)) => false,
        None => match action {
            PromptRunAction::StartThread(tp) => old.requested is None
                && run.phase == (PromptRunPhase::OpeningThread { requested: None })
                && thread_start_from_prompt(params, tp)
                && security_error(tp.sandbox_policy, tp.privileged_escalation_approved, tp.approval_policy, opt_string_seq(tp.cwd)) is None,
            PromptRunAction::ResumeThread { thread_id: t, params: tp } => old.requested == Some(t)
                && run.phase == (PromptRunPhase::OpeningThread { requested: Some(t) })
                && thread_start_from_prompt(params, tp)
                && security_error(tp.sandbox_policy, tp.privileged_escalation_approved, tp.approval_policy, opt_string_seq(tp.cwd)) is None,
            _ => false,
        },
    }
}

/// `r` is the run's result for a turn whose collection ended with
/// `collected`: the turn's text with the thread and turn ids, or its error.
pub open spec fn run_result(
    r: Result<PromptRunResult, PromptRunError>,
    thread_id: Seq<char>,
    turn_id: Seq<char>,
    collected: Result<(TurnTerminalEvent, Option<LaggedTurnTerminal>), TurnCollectError>,
    stream_text: Seq<char>,
    last_turn_error: Option<PromptTurnErrorSignal>,
    timeout_ms: u64,
) -> bool {
    let text_result = match r {
        Ok(v) => Ok::<String, PromptRunError>(v.assistant_text),
        Err(e) => Err(e),
    };
    &&& turn_result(text_result, collected, stream_text, last_turn_error, timeout_ms)
    &&& r matches Ok(v) ==> v.thread_id@ == thread_id && v.turn_id@ == turn_id
}

/// Ends a run that got an event its phase does not expect.
fn out_of_order(params: PromptRunParams, effort: ReasoningEffort, hooks: bool, requested: Option<String>, run_model: Option<String>)
    -> (r: (PromptRun, PromptRunAction))
    ensures
        r.0.params == params,
        r.0.effort == effort,
        r.0.hooks == hooks,
        r.0.requested == requested,
        r.0.run_model == run_model,
        r.0.phase is Finished,
        r.1 matches PromptRunAction::Finish(Err(PromptRunError::Runtime(RuntimeError::Internal(_)))),
{
    (PromptRun { params, effort, hooks, requested, run_model, phase: PromptRunPhase::Finished },
     PromptRunAction::Finish(Err(PromptRunError::Runtime(RuntimeError::Internal(owned("prompt run event out of order"))))))
}

} // verus!
