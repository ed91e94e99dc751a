//! The structured output of an artifact turn: where a `turn/start` result
//! or an event carries it, and the scan of a turn's events that collects
//! it. Candidates that are JSON text are decoded by the caller.
use vstd::prelude::*;
use crate::artifact::types::DomainError;
use crate::errors::RuntimeError;
use crate::events::Envelope;
use crate::json::{get_opt, opt_deref, opt_str_view, spec_get, spec_get_opt, JsonValue};
use crate::artifact::task::{extract_fenced_json, has_required_keys, spec_fenced_json, spec_has_required_keys};
use crate::text::{is_blank, owned, push_str, str_is_blank, trim, trim_str};
use crate::turn_output::{collector_step, AssistantTextCollector};

verus! {

/// The output candidate of an event's params: `output`, else
/// `item.output`.
pub open spec fn spec_output_candidate(params: JsonValue) -> Option<JsonValue> {
    if spec_get(params, "output"@) is Some {
        spec_get(params, "output"@)
    } else {
        spec_get_opt(spec_get(params, "item"@), "output"@)
    }
}

/// The output candidate of an event's params (see `spec_output_candidate`).
pub fn output_candidate(params: &JsonValue) -> (r: Option<&JsonValue>)
    ensures
        opt_deref(r) == spec_output_candidate(*params),
{
    match params.get("output") {
        Some(c) => Some(c),
        None => get_opt(params.get("item"), "output"),
    }
}

/// Where the result of `turn/start` carries the output.
#[derive(Clone, Copy, Debug, PartialEq, Eq, Structural)]
pub enum DirectOutput {
    /// In its `output` member, to be decoded.
    Member,
    /// It is a string, to be decoded.
    Bare,
    /// It is an object that describes neither a turn nor a thread: the
    /// output itself.
    Whole,
    /// Nowhere: the output comes with the turn's events.
    Absent,
}

/// Where the result of `turn/start` carries the output.
pub open spec fn spec_direct_output(result: JsonValue) -> DirectOutput {
    if spec_get(result, "output"@) is Some {
        DirectOutput::Member
    } else if result is String {
        DirectOutput::Bare
    } else if result is Object && spec_get(result, "turn"@) is None && spec_get(result, "thread"@) is None {
        DirectOutput::Whole
    } else {
        DirectOutput::Absent
    }
}

/// Where the result of `turn/start` carries the output (see
/// `spec_direct_output`).
pub fn direct_output(result: &JsonValue) -> (r: DirectOutput)
    ensures
        r == spec_direct_output(*result),
{
    if result.get("output").is_some() {
        DirectOutput::Member
    } else if result.is_string() {
        DirectOutput::Bare
    } else if result.is_object() && result.get("turn").is_none() && result.get("thread").is_none() {
        DirectOutput::Whole
    } else {
        DirectOutput::Absent
    }
}

/// Where the scan found the output.
#[derive(Debug)]
pub enum ScanOutput {
    /// The decoded output candidate of an event.
    FromEvent(JsonValue),
    /// The assistant text, to be decoded as JSON.
    FromText(String),
}

/// What happened instead of an event while waiting for the next one.
#[derive(Debug)]
pub enum ScanEvent {
    /// Events were missed.
    Lagged,
    /// The live stream closed; the text says why.
    Closed(String),
    /// The wait timed out.
    TimedOut,
}

/// Whether the scan goes on.
#[derive(Debug)]
pub enum ScanStep {
    Continue,
    Done(Result<ScanOutput, DomainError>),
}

/// The scan of one turn's events for its output.
#[derive(Debug)]
pub struct TurnOutputScan {
    pub thread_id: String,
    pub turn_id: String,
    /// Events of the turn that may still be read.
    pub budget: usize,
    pub collector: AssistantTextCollector,
    pub output_from_event: Option<JsonValue>,
}

/// `m` is `prefix` followed by `turn_id=` and the turn id.
pub open spec fn turn_message(prefix: Seq<char>, turn_id: Seq<char>, m: String) -> bool {
    m@ == prefix + "turn_id="@ + turn_id
}

/// `r` is how a scan that read its turn's completion ends: with the output
/// of an event when one had it (`kept`), else with the assistant text.
pub open spec fn completed_outcome(kept: Option<JsonValue>, text: Seq<char>, r: Result<ScanOutput, DomainError>) -> bool {
    match kept {
        Some(v) => r == Ok::<ScanOutput, DomainError>(ScanOutput::FromEvent(v)),
        None => r matches Ok(ScanOutput::FromText(t)) && t@ == text,
    }
}

/// The output kept after an event with decoded candidate `candidate`:
/// the first one found.
pub open spec fn kept_output(before: Option<JsonValue>, candidate: Option<Result<JsonValue, DomainError>>) -> Option<JsonValue> {
    match (before, candidate) {
        (None, Some(Ok(v))) => Some(v),
        (x, _) => x,
    }
}

/// True when the method of `e` is `name`.
fn method_is(e: &Envelope, name: &str) -> (b: bool)
    ensures
        b == (opt_str_view(e.method) == Some(name@)),
{
    match &e.method {
        Some(m) => crate::text::str_eq(m.as_str(), name),
        None => false,
    }
}

/// `r` is how a scan that exhausted its budget without completion ends.
pub open spec fn budget_exhausted(turn_id: Seq<char>, r: Result<ScanOutput, DomainError>) -> bool {
    r matches Err(DomainError::Parse(m)) && turn_message("turn output scan exceeded event budget: "@, turn_id, m)
}

/// A message `prefix` + `turn_id=` + the turn id.
fn turn_error_text(prefix: &str, turn_id: &str) -> (m: String)
    ensures
        turn_message(prefix@, turn_id@, m),
{
    let mut m = owned(prefix);
    push_str(&mut m, "turn_id=");
    push_str(&mut m, turn_id);
    m
}

impl TurnOutputScan {
    /// A scan of turn `turn_id` of thread `thread_id` that reads at most
    /// `max_turn_events` of its events; with no budget at all it ends at
    /// once.
    pub fn start(thread_id: &str, turn_id: &str, max_turn_events: usize) -> (r: (TurnOutputScan, ScanStep))
        ensures
            r.0.thread_id@ == thread_id@,
            r.0.turn_id@ == turn_id@,
            r.0.budget == max_turn_events,
            r.0.collector@.2.len() == 0,
            r.0.output_from_event is None,
            max_turn_events > 0 ==> r.1 is Continue,
            max_turn_events == 0 ==> (r.1 matches ScanStep::Done(res) && budget_exhausted(turn_id@, res)),
    {
        let scan = TurnOutputScan {
            thread_id: owned(thread_id),
            turn_id: owned(turn_id),
            budget: max_turn_events,
            collector: AssistantTextCollector::new(),
            output_from_event: None,
        };
        if max_turn_events == 0 {
            let m = turn_error_text("turn output scan exceeded event budget: ", turn_id);
            (scan, ScanStep::Done(Err(DomainError::Parse(m))))
        } else {
            (scan, ScanStep::Continue)
        }
    }

    /// Takes in what happened instead of an event: missed events are
    /// skipped; a closed stream and a timeout end the scan with a runtime
    /// error.
    pub fn on_stream(&self, event: ScanEvent) -> (r: ScanStep)
        ensures
            match event {
                ScanEvent::Lagged => r is Continue,
                ScanEvent::TimedOut => r matches ScanStep::Done(Err(DomainError::Runtime(RuntimeError::Timeout))),
                ScanEvent::Closed(why) => r matches ScanStep::Done(Err(DomainError::Runtime(RuntimeError::Internal(m))))
                    && m@ == "live stream closed while waiting turn output: "@ + why@,
            },
    {
        match event {
            ScanEvent::Lagged => ScanStep::Continue,
            ScanEvent::TimedOut => ScanStep::Done(Err(DomainError::Runtime(RuntimeError::Timeout))),
            ScanEvent::Closed(why) => {
                let mut m = owned("live stream closed while waiting turn output: ");
                push_str(&mut m, why.as_str());
                ScanStep::Done(Err(DomainError::Runtime(RuntimeError::Internal(m))))
            },
        }
    }

    /// Takes in one event, with the decoded output candidate of its params
    /// (see `output_candidate`) when it has one:
    /// - events of other threads or turns are skipped;
    /// - an event of the turn uses up one of the budget and feeds the
    ///   assistant text; its candidate is kept when none was, and a
    ///   candidate that failed to decode ends the scan;
    /// - `turn/completed` ends it with the output (see
    ///   `completed_outcome`); `turn/failed` and `turn/interrupted` end it
    ///   with a validation error; a used-up budget ends it with a parse
    ///   error.
    pub fn receive(&mut self, e: &Envelope, candidate: Option<Result<JsonValue, DomainError>>) -> (r: ScanStep)
        requires
            old(self).budget > 0,
        ensures
            final(self).thread_id == old(self).thread_id,
            final(self).turn_id == old(self).turn_id,
            if opt_str_view(e.thread_id) != Some(old(self).thread_id@) || opt_str_view(e.turn_id) != Some(old(self).turn_id@) {
                r is Continue && *final(self) == *old(self)
            } else {
                &&& final(self).budget == old(self).budget - 1
                &&& final(self).collector@ == collector_step(old(self).collector@, *e)
                &&& if old(self).output_from_event is None && candidate matches Some(Err(_)) {
                    r == ScanStep::Done(Err(candidate->0->Err_0))
                } else if opt_str_view(e.method) == Some("turn/completed"@) {
                    r matches ScanStep::Done(res)
                        && completed_outcome(kept_output(old(self).output_from_event, candidate), final(self).collector@.2, res)
                } else {
                    &&& final(self).output_from_event == kept_output(old(self).output_from_event, candidate)
                    &&& if opt_str_view(e.method) == Some("turn/failed"@) {
                        r matches ScanStep::Done(Err(DomainError::Validation(m)))
                            && turn_message("turn failed while collecting output: "@, old(self).turn_id@, m)
                    } else if opt_str_view(e.method) == Some("turn/interrupted"@) {
                        r matches ScanStep::Done(Err(DomainError::Validation(m)))
                            && turn_message("turn interrupted while collecting output: "@, old(self).turn_id@, m)
                    } else if final(self).budget == 0 {
                        r matches ScanStep::Done(res) && budget_exhausted(old(self).turn_id@, res)
                    } else {
                        r is Continue
                    }
                }
            },
    {
        let same_thread = match &e.thread_id {
            Some(t) => crate::text::str_eq(t.as_str(), self.thread_id.as_str()),
            None => false,
        };
        let same_turn = match &e.turn_id {
            Some(t) => crate::text::str_eq(t.as_str(), self.turn_id.as_str()),
            None => false,
        };
        if !same_thread || !same_turn {
            return ScanStep::Continue;
        }
        self.budget = self.budget - 1;
        self.collector.push_envelope(e);
        if self.output_from_event.is_none() {
            match candidate {
                Some(Err(err)) => return ScanStep::Done(Err(err)),
                Some(Ok(v)) => self.output_from_event = Some(v),
                None => {},
            }
        }
        if method_is(e, "turn/completed") {
            let out = match self.output_from_event.take() {
                Some(v) => ScanOutput::FromEvent(v),
                None => ScanOutput::FromText(owned(self.collector.text())),
            };
            return ScanStep::Done(Ok(out));
        }
        if method_is(e, "turn/failed") {
            return ScanStep::Done(Err(DomainError::Validation(
                turn_error_text("turn failed while collecting output: ", self.turn_id.as_str()))));
        }
        if method_is(e, "turn/interrupted") {
            return ScanStep::Done(Err(DomainError::Validation(
                turn_error_text("turn interrupted while collecting output: ", self.turn_id.as_str()))));
        }
        if self.budget == 0 {
            return ScanStep::Done(Err(DomainError::Parse(
                turn_error_text("turn output scan exceeded event budget: ", self.turn_id.as_str()))));
        }
        ScanStep::Continue
    }
}

/// The text of a turn's structured output, checked before it is decoded:
/// blank text is refused; otherwise the trimmed text, and the content of
/// its fenced block when it starts with one, are the texts to decode.
pub fn output_text_plan(text: &str) -> (r: Result<(String, Option<String>), DomainError>)
    ensures
        is_blank(text@) ==> (r matches Err(DomainError::Parse(m))
            && m@ == "turn completed without structured output"@),
        !is_blank(text@) ==> (r matches Ok((t, f)) && t@ == trim(text@)
            && match spec_fenced_json(trim(text@)) {
                Some(b) => f matches Some(x) && x@ == b,
                None => f is None,
            }),
{
    if str_is_blank(text) {
        return Err(DomainError::Parse(owned("turn completed without structured output")));
    }
    let trimmed = trim_str(text);
    let fenced = extract_fenced_json(trimmed);
    Ok((owned(trimmed), fenced))
}

/// The output decoded from a turn's text: the trimmed text decoded as
/// JSON, else its fenced block decoded, else a parse error naming the
/// text.
pub fn pick_parsed_output(trimmed: &str, direct: Option<JsonValue>, fenced: Option<JsonValue>) -> (r: Result<JsonValue, DomainError>)
    ensures
        direct matches Some(v) ==> r == Ok::<JsonValue, DomainError>(v),
        direct is None ==> (fenced matches Some(v) ==> r == Ok::<JsonValue, DomainError>(v)),
        direct is None && fenced is None ==> (r matches Err(DomainError::Parse(m))
            && m@ == "turn output is not valid JSON: "@ + trimmed@),
{
    match direct {
        Some(v) => Ok(v),
        None => match fenced {
            Some(v) => Ok(v),
            None => {
                let mut m = owned("turn output is not valid JSON: ");
                push_str(&mut m, trimmed);
                Err(DomainError::Parse(m))
            },
        },
    }
}

/// Where the object with the required keys is looked for: `None` when the
/// turn result itself has them, else the result's `output` candidate, if
/// it has one, to be decoded.
pub fn keyed_output_source<'a>(turn_result: &'a JsonValue, keys: &Vec<&str>) -> (r: Option<Option<&'a JsonValue>>)
    ensures
        spec_has_required_keys(*turn_result, keys@.map_values(|k: &str| k@)) ==> r is None,
        !spec_has_required_keys(*turn_result, keys@.map_values(|k: &str| k@)) ==> (r matches Some(c)
            && opt_deref(c) == spec_get(*turn_result, "output"@)),
{
    if has_required_keys(turn_result, keys) {
        None
    } else {
        Some(turn_result.get("output"))
    }
}

/// The decoded `output` candidate, when it decoded and has the required
/// keys; its decoding error; or nothing, when the keys are missing.
pub fn accept_keyed(parsed: Result<JsonValue, DomainError>, keys: &Vec<&str>) -> (r: Option<Result<JsonValue, DomainError>>)
    ensures
        match parsed {
            Err(e) => r == Some(Err::<JsonValue, DomainError>(e)),
            Ok(v) => if spec_has_required_keys(v, keys@.map_values(|k: &str| k@)) {
                r == Some(Ok::<JsonValue, DomainError>(v))
            } else {
                r is None
            },
        },
{
    match parsed {
        Err(e) => Some(Err(e)),
        Ok(v) => if has_required_keys(&v, keys) { Some(Ok(v)) } else { None },
    }
}

} // verus!
