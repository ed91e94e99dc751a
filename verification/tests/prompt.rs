use coclai::api_types::ThreadTurnStatus;
use coclai::errors::{PromptRunError, PromptTurnTerminalState, RpcError, RuntimeError};
use coclai::events::{Direction, Envelope, MsgKind};
use coclai::hooks::HookPhase;
use coclai::json::{JsonNumber, JsonValue};
use coclai::prompt::{
    extract_error_message, extract_turn_error_signal, finalize_prompt_turn_assistant_text, lagged_turn_terminal,
    prompt_turn_outcome, LaggedTurnTerminal, PromptRun, PromptRunAction, PromptRunEvent,
    PromptRunPhase, PromptTurnErrorSignal, TurnCollectError, TurnTerminalEvent,
    turn_collect_step, TurnCollectAction, TurnCollectState, TurnStreamEvent,
};
use coclai::api_types::{ApprovalPolicy, SandboxPolicy, SandboxPreset};
use coclai::wire::{InputItem, PromptRunParams};

fn s(x: &str) -> JsonValue {
    JsonValue::String(x.to_owned())
}

fn obj(fields: Vec<(&str, JsonValue)>) -> JsonValue {
    JsonValue::Object(fields.into_iter().map(|(k, v)| (k.to_owned(), v)).collect())
}

fn event(method: &str, json: JsonValue) -> Envelope {
    Envelope {
        seq: 1,
        ts_millis: 0,
        direction: Direction::Inbound,
        kind: MsgKind::Notification,
        rpc_id: None,
        method: Some(method.to_owned()),
        thread_id: None,
        turn_id: None,
        item_id: None,
        json,
    }
}

fn signal(msg: &str) -> PromptTurnErrorSignal {
    PromptTurnErrorSignal { source_method: "error".to_owned(), code: Some(7), message: msg.to_owned() }
}

#[test]
fn error_messages_are_found_by_key_order() {
    let v = obj(vec![("detail", s("d")), ("message", s("m")), ("code", JsonValue::Number(JsonNumber::NegInt(-3)))]);
    assert_eq!(extract_error_message(&v), Some((Some(-3), "m".to_owned())));
    let nested = obj(vec![("error", obj(vec![("message", s("inner"))]))]);
    assert_eq!(extract_error_message(&nested), Some((None, "inner".to_owned())));
    assert_eq!(extract_error_message(&obj(vec![])), None);
}

#[test]
fn only_error_and_failed_events_signal() {
    let e = event("turn/failed", obj(vec![("params", obj(vec![("error", obj(vec![("message", s("bad"))]))]))]));
    let sig = extract_turn_error_signal(&e).expect("signal");
    assert_eq!(sig.source_method, "turn/failed");
    assert_eq!(sig.message, "bad");
    let bare = event("error", obj(vec![]));
    assert_eq!(extract_turn_error_signal(&bare).expect("signal").message, "error event");
    assert!(extract_turn_error_signal(&event("turn/completed", obj(vec![]))).is_none());
}

#[test]
fn completed_turn_text_prefers_nonblank_readback_and_is_trimmed() {
    assert_eq!(
        finalize_prompt_turn_assistant_text("  streamed \n".to_owned(), None, None).expect("text"),
        "streamed"
    );
    assert_eq!(
        finalize_prompt_turn_assistant_text("streamed".to_owned(), Some(" read back ".to_owned()), None).expect("text"),
        "read back"
    );
    assert_eq!(
        finalize_prompt_turn_assistant_text("streamed".to_owned(), Some("  ".to_owned()), None).expect("text"),
        "streamed"
    );
    assert!(matches!(
        finalize_prompt_turn_assistant_text(" ".to_owned(), None, None),
        Err(PromptRunError::EmptyAssistantText)
    ));
    match finalize_prompt_turn_assistant_text("".to_owned(), None, Some(signal("why"))) {
        Err(PromptRunError::TurnCompletedWithoutAssistantText(f)) => {
            assert_eq!(f.terminal_state, PromptTurnTerminalState::CompletedWithoutAssistantText);
            assert_eq!(f.message, "why");
            assert_eq!(f.code, Some(7));
        }
        other => panic!("unexpected {other:?}"),
    }
}

#[test]
fn turn_outcomes_follow_how_collection_ended() {
    let o = prompt_turn_outcome(Err(TurnCollectError::Timeout), String::new(), None, 500);
    assert!(o.interrupt);
    assert!(matches!(o.result, Err(PromptRunError::Timeout(500))));
    let o = prompt_turn_outcome(Err(TurnCollectError::LagProbe(RpcError::Timeout)), String::new(), None, 9);
    assert!(o.interrupt);
    let o = prompt_turn_outcome(Err(TurnCollectError::StreamClosed("gone".to_owned())), String::new(), None, 9);
    assert!(!o.interrupt);
    assert!(matches!(o.result, Err(PromptRunError::Runtime(RuntimeError::Internal(ref m))) if m == "live stream closed: gone"));
    let o = prompt_turn_outcome(Ok((TurnTerminalEvent::Completed, None)), "hi".to_owned(), None, 9);
    assert_eq!(o.result.expect("text"), "hi");
    let o = prompt_turn_outcome(
        Ok((TurnTerminalEvent::Failed, Some(LaggedTurnTerminal::Failed { message: Some("m".to_owned()) }))),
        String::new(),
        None,
        9,
    );
    match o.result {
        Err(PromptRunError::TurnFailedWithContext(f)) => {
            assert_eq!(f.source_method, "thread/read");
            assert_eq!(f.message, "m");
        }
        other => panic!("unexpected {other:?}"),
    }
    let o = prompt_turn_outcome(Ok((TurnTerminalEvent::Failed, None)), String::new(), None, 9);
    assert!(matches!(o.result, Err(PromptRunError::TurnFailed)));
    let o = prompt_turn_outcome(Ok((TurnTerminalEvent::Interrupted, None)), String::new(), None, 9);
    assert!(matches!(o.result, Err(PromptRunError::TurnInterrupted)));
}

#[test]
fn prompt_run_walks_thread_turn_and_collection() {
    let params = PromptRunParams::new("/tmp", "hello").with_timeout(1_000);
    let (run, action) = PromptRun::start(params, None, false);
    assert!(matches!(action, PromptRunAction::StartThread(_)));
    let (run, action) = run.step(PromptRunEvent::ThreadOpened(Ok("thr".to_owned())));
    match action {
        PromptRunAction::StartTurn { thread_id, params } => {
            assert_eq!(thread_id, "thr");
            assert_eq!(params.input, vec![InputItem::Text { text: "hello".to_owned() }]);
        }
        other => panic!("unexpected {other:?}"),
    }
    let (run, action) = run.step(PromptRunEvent::TurnStarted(Ok("turn".to_owned())));
    assert!(matches!(action, PromptRunAction::CollectTurn { ref thread_id, ref turn_id, timeout_ms: 1_000 }
        if thread_id == "thr" && turn_id == "turn"));
    let (run, action) = run.step(PromptRunEvent::TurnCollected {
        collected: Ok((TurnTerminalEvent::Completed, None)),
        stream_text: "answer".to_owned(),
        last_turn_error: None,
    });
    assert!(matches!(run.phase, PromptRunPhase::Finished));
    match action {
        PromptRunAction::Finish(Ok(r)) => {
            assert_eq!(r.thread_id, "thr");
            assert_eq!(r.turn_id, "turn");
            assert_eq!(r.assistant_text, "answer");
        }
        other => panic!("unexpected {other:?}"),
    }
}

#[test]
fn prompt_run_resumes_and_interrupts_on_timeout() {
    let (run, action) = PromptRun::start(PromptRunParams::new("/tmp", "x"), Some("thr_old".to_owned()), false);
    assert!(matches!(action, PromptRunAction::ResumeThread { ref thread_id, .. } if thread_id == "thr_old"));
    let (run, _) = run.step(PromptRunEvent::ThreadOpened(Ok("thr_old".to_owned())));
    let (run, _) = run.step(PromptRunEvent::TurnStarted(Ok("t1".to_owned())));
    let (_, action) = run.step(PromptRunEvent::TurnCollected {
        collected: Err(TurnCollectError::Timeout),
        stream_text: String::new(),
        last_turn_error: None,
    });
    assert!(matches!(action, PromptRunAction::InterruptAndFinish { result: Err(PromptRunError::Timeout(120_000)), .. }));
}

#[test]
fn prompt_run_stops_on_missing_attachment_and_out_of_order_events() {
    let params = PromptRunParams::new("/tmp", "x").attach_path("definitely_missing_file_98765.txt");
    let (_, action) = PromptRun::start(params, None, false);
    assert!(matches!(action, PromptRunAction::Finish(Err(PromptRunError::AttachmentNotFound(_)))));
    let (run, _) = PromptRun::start(PromptRunParams::new("/tmp", "x"), None, false);
    let (_, action) = run.step(PromptRunEvent::TurnStarted(Ok("early".to_owned())));
    assert!(matches!(action, PromptRunAction::Finish(Err(PromptRunError::Runtime(RuntimeError::Internal(_))))));
}

#[test]
fn lagged_turns_end_by_their_status() {
    let done = lagged_turn_terminal(ThreadTurnStatus::Completed, None, Some("text".to_owned()));
    assert!(matches!(done, Some(LaggedTurnTerminal::Completed { assistant_text: Some(ref t) }) if t == "text"));
    let failed = lagged_turn_terminal(ThreadTurnStatus::Failed, Some("bad".to_owned()), None);
    assert!(matches!(failed, Some(LaggedTurnTerminal::Failed { message: Some(ref m) }) if m == "bad"));
    assert!(matches!(lagged_turn_terminal(ThreadTurnStatus::Interrupted, None, None), Some(LaggedTurnTerminal::Interrupted)));
    assert!(lagged_turn_terminal(ThreadTurnStatus::InProgress, None, None).is_none());
}

#[test]
fn prompt_run_runs_turn_hooks_around_the_turn() {
    let params = PromptRunParams::new("/tmp", "hello").with_model("m0");
    let (run, action) = PromptRun::start(params, None, true);
    match action {
        PromptRunAction::RunPreRunHooks(c) => {
            assert_eq!(c.phase, HookPhase::PreRun);
            assert_eq!(c.thread_id, None);
            assert_eq!(c.cwd, Some("hello".to_owned()));
            assert_eq!(c.model, Some("m0".to_owned()));
        }
        other => panic!("unexpected {other:?}"),
    }
    let (run, action) = run.step(PromptRunEvent::PreRunHooksRan {
        prompt: "hello".to_owned(),
        model: Some("m1".to_owned()),
        attachments: vec![],
    });
    assert!(matches!(action, PromptRunAction::StartThread(ref p) if p.model == Some("m1".to_owned())));
    let (run, action) = run.step(PromptRunEvent::ThreadOpened(Ok("thr".to_owned())));
    match action {
        PromptRunAction::RunPreTurnHooks(c) => {
            assert_eq!(c.phase, HookPhase::PreTurn);
            assert_eq!(c.thread_id, Some("thr".to_owned()));
            assert_eq!(c.cwd, Some("hello".to_owned()));
            assert_eq!(c.model, Some("m1".to_owned()));
            assert_eq!(c.turn_id, None);
        }
        other => panic!("unexpected {other:?}"),
    }
    let (run, action) = run.step(PromptRunEvent::PreTurnHooksRan {
        prompt: "hello again".to_owned(),
        model: Some("m2".to_owned()),
        attachments: vec![],
    });
    match action {
        PromptRunAction::StartTurn { thread_id, params } => {
            assert_eq!(thread_id, "thr");
            assert_eq!(params.input, vec![InputItem::Text { text: "hello again".to_owned() }]);
            assert_eq!(params.model, Some("m2".to_owned()));
        }
        other => panic!("unexpected {other:?}"),
    }
    let (run, _) = run.step(PromptRunEvent::TurnStarted(Ok("turn".to_owned())));
    let (run, action) = run.step(PromptRunEvent::TurnCollected {
        collected: Ok((TurnTerminalEvent::Completed, None)),
        stream_text: "answer".to_owned(),
        last_turn_error: None,
    });
    match action {
        PromptRunAction::RunPostTurnHooks { context, interrupt } => {
            assert!(!interrupt);
            assert_eq!(context.phase, HookPhase::PostTurn);
            assert_eq!(context.cwd, Some("/tmp".to_owned()));
            assert_eq!(context.thread_id, Some("thr".to_owned()));
            assert_eq!(context.turn_id, Some("turn".to_owned()));
            assert_eq!(context.model, Some("m2".to_owned()));
            assert_eq!(context.main_ok, Some(true));
        }
        other => panic!("unexpected {other:?}"),
    }
    let (run, action) = run.step(PromptRunEvent::PostTurnHooksRan);
    match action {
        PromptRunAction::RunPostRunHooks(c) => {
            assert_eq!(c.phase, HookPhase::PostRun);
            assert_eq!(c.thread_id, Some("thr".to_owned()));
            assert_eq!(c.model, Some("m1".to_owned()));
            assert_eq!(c.turn_id, None);
            assert_eq!(c.main_ok, Some(true));
        }
        other => panic!("unexpected {other:?}"),
    }
    let (run, action) = run.step(PromptRunEvent::PostRunHooksRan);
    assert!(matches!(run.phase, PromptRunPhase::Finished));
    assert!(matches!(action, PromptRunAction::Finish(Ok(ref r)) if r.assistant_text == "answer"));
}

#[test]
fn prompt_run_post_hooks_see_a_failed_turn_start() {
    let (run, _) = PromptRun::start(PromptRunParams::new("/tmp", "x"), Some("thr".to_owned()), true);
    let (run, _) = run.step(PromptRunEvent::PreRunHooksRan { prompt: "x".to_owned(), model: None, attachments: vec![] });
    let (run, _) = run.step(PromptRunEvent::ThreadOpened(Ok("thr".to_owned())));
    let (run, _) = run.step(PromptRunEvent::PreTurnHooksRan { prompt: "x".to_owned(), model: None, attachments: vec![] });
    let (run, action) = run.step(PromptRunEvent::TurnStarted(Err(RpcError::Timeout)));
    match action {
        PromptRunAction::RunPostTurnHooks { context, interrupt } => {
            assert!(!interrupt);
            assert_eq!(context.turn_id, None);
            assert_eq!(context.main_ok, Some(false));
        }
        other => panic!("unexpected {other:?}"),
    }
    let (run, action) = run.step(PromptRunEvent::PostTurnHooksRan);
    match action {
        PromptRunAction::RunPostRunHooks(c) => {
            assert_eq!(c.thread_id, Some("thr".to_owned()));
            assert_eq!(c.main_ok, Some(false));
        }
        other => panic!("unexpected {other:?}"),
    }
    let (_, action) = run.step(PromptRunEvent::PostRunHooksRan);
    assert!(matches!(action, PromptRunAction::Finish(Err(PromptRunError::Rpc(RpcError::Timeout)))));
}

#[test]
fn prompt_run_refuses_a_resumed_thread_with_another_id() {
    let (run, _) = PromptRun::start(PromptRunParams::new("/tmp", "x"), Some("thr_a".to_owned()), false);
    let (_, action) = run.step(PromptRunEvent::ThreadOpened(Ok("thr_b".to_owned())));
    match action {
        PromptRunAction::Finish(Err(PromptRunError::Rpc(RpcError::InvalidRequest(m)))) => assert_eq!(
            m,
            "thread/resume returned mismatched thread id: requested=thr_a actual=thr_b"
        ),
        other => panic!("unexpected {other:?}"),
    }
}

#[test]
fn prompt_run_applies_the_privileged_sandbox_gate() {
    let danger = PromptRunParams::new("/tmp", "x")
        .with_sandbox_policy(SandboxPolicy::Preset(SandboxPreset::DangerFullAccess));
    let (_, action) = PromptRun::start(danger, None, false);
    match action {
        PromptRunAction::Finish(Err(PromptRunError::Rpc(RpcError::InvalidRequest(m)))) => {
            assert_eq!(m, "privileged sandbox requires explicit escalation approval")
        }
        other => panic!("unexpected {other:?}"),
    }
    let approved = PromptRunParams::new("/tmp", "x")
        .with_sandbox_policy(SandboxPolicy::Preset(SandboxPreset::DangerFullAccess))
        .allow_privileged_escalation()
        .with_approval_policy(ApprovalPolicy::OnRequest);
    let (_, action) = PromptRun::start(approved, None, false);
    match action {
        PromptRunAction::StartThread(p) => {
            assert!(p.privileged_escalation_approved);
            assert_eq!(p.approval_policy, Some(ApprovalPolicy::OnRequest));
            assert_eq!(p.cwd, Some("/tmp".to_owned()));
        }
        other => panic!("unexpected {other:?}"),
    }
}

fn turn_event(method: &str, thread: &str, turn: &str, json: JsonValue) -> Envelope {
    let mut e = event(method, json);
    e.thread_id = Some(thread.to_owned());
    e.turn_id = Some(turn.to_owned());
    e
}

#[test]
fn turn_collection_ignores_other_turns_and_ends_on_completion() {
    let st = TurnCollectState::new("thr".to_owned(), "turn".to_owned());
    let other = turn_event("turn/completed", "thr", "other", obj(vec![]));
    let (st, action) = turn_collect_step(st, TurnStreamEvent::Envelope(other));
    assert!(matches!(action, TurnCollectAction::Continue));
    let mut delta = turn_event("item/agentMessage/delta", "thr", "turn", obj(vec![("params", obj(vec![("delta", s("hi"))]))]));
    delta.item_id = Some("i1".to_owned());
    let (st, action) = turn_collect_step(st, TurnStreamEvent::Envelope(delta));
    assert!(matches!(action, TurnCollectAction::Continue));
    let err = turn_event("error", "thr", "turn", obj(vec![("params", obj(vec![("message", s("boom"))]))]));
    let (st, _) = turn_collect_step(st, TurnStreamEvent::Envelope(err));
    assert_eq!(st.last_turn_error.as_ref().map(|e| e.message.clone()), Some("boom".to_owned()));
    let cancelled = turn_event("turn/cancelled", "thr", "turn", obj(vec![]));
    let (st, action) = turn_collect_step(st, TurnStreamEvent::Envelope(cancelled));
    assert!(matches!(action, TurnCollectAction::Continue));
    let done = turn_event("turn/completed", "thr", "turn", obj(vec![]));
    let (st, action) = turn_collect_step(st, TurnStreamEvent::Envelope(done));
    assert!(matches!(action, TurnCollectAction::Finish(Ok((TurnTerminalEvent::Completed, None)))));
    assert_eq!(st.collector.into_text(), "hi");
}

#[test]
fn turn_collection_reads_back_after_lag() {
    let st = TurnCollectState::new("thr".to_owned(), "turn".to_owned());
    let (st, action) = turn_collect_step(st, TurnStreamEvent::Lagged);
    assert!(matches!(action, TurnCollectAction::ReadTurnAfterLag));
    let (st, action) = turn_collect_step(st, TurnStreamEvent::LagProbeAnswered(Ok(None)));
    assert!(matches!(action, TurnCollectAction::Continue));
    let (st, action) = turn_collect_step(
        st,
        TurnStreamEvent::LagProbeAnswered(Ok(Some(LaggedTurnTerminal::Failed { message: Some("bad".to_owned()) }))),
    );
    assert!(matches!(action, TurnCollectAction::Finish(Ok((TurnTerminalEvent::Failed, Some(LaggedTurnTerminal::Failed { .. }))))));
    let (st, action) = turn_collect_step(st, TurnStreamEvent::LagProbeAnswered(Err(RpcError::Timeout)));
    assert!(matches!(action, TurnCollectAction::Finish(Err(TurnCollectError::LagProbe(RpcError::Timeout)))));
    let (st, action) = turn_collect_step(st, TurnStreamEvent::Closed("gone".to_owned()));
    assert!(matches!(action, TurnCollectAction::Finish(Err(TurnCollectError::StreamClosed(ref w))) if w == "gone"));
    let (_, action) = turn_collect_step(st, TurnStreamEvent::TimedOut);
    assert!(matches!(action, TurnCollectAction::Finish(Err(TurnCollectError::Timeout))));
}

#[test]
fn prompt_run_post_run_hooks_see_a_refused_sandbox() {
    let danger = PromptRunParams::new("/tmp", "x")
        .with_sandbox_policy(SandboxPolicy::Preset(SandboxPreset::DangerFullAccess));
    let (run, _) = PromptRun::start(danger, Some("thr_q".to_owned()), true);
    let (run, action) = run.step(PromptRunEvent::PreRunHooksRan { prompt: "x".to_owned(), model: None, attachments: vec![] });
    match action {
        PromptRunAction::RunPostRunHooks(c) => {
            assert_eq!(c.thread_id, Some("thr_q".to_owned()));
            assert_eq!(c.main_ok, Some(false));
        }
        other => panic!("unexpected {other:?}"),
    }
    let (_, action) = run.step(PromptRunEvent::PostRunHooksRan);
    assert!(matches!(action, PromptRunAction::Finish(Err(PromptRunError::Rpc(RpcError::InvalidRequest(_))))));
}
