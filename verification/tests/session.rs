use coclai::api_types::{ApprovalPolicy, SandboxPolicy, SandboxPreset};
use coclai::errors::RpcError;
use coclai::hooks::HookPhase;
use coclai::session::{SessionStart, SessionStartAction, SessionStartEvent, SessionStartPhase};
use coclai::wire::ThreadStartParams;

fn params() -> ThreadStartParams {
    let mut p = ThreadStartParams::default();
    p.cwd = Some("/work".to_owned());
    p.model = Some("m0".to_owned());
    p
}

#[test]
fn session_start_without_hooks_opens_at_once() {
    let (s, action) = SessionStart::start(params(), None, false);
    match action {
        SessionStartAction::StartThread(p) => assert_eq!(p.model, Some("m0".to_owned())),
        other => panic!("unexpected {other:?}"),
    }
    let (s, action) = s.step(SessionStartEvent::ThreadOpened(Ok("thr".to_owned())));
    assert!(matches!(s.phase, SessionStartPhase::Finished));
    assert!(matches!(action, SessionStartAction::Finish(Ok(ref t)) if t == "thr"));
}

#[test]
fn session_start_runs_pre_and_post_hooks() {
    let (s, action) = SessionStart::start(params(), Some("thr_r".to_owned()), true);
    match action {
        SessionStartAction::RunPreHooks(c) => {
            assert_eq!(c.phase, HookPhase::PreSessionStart);
            assert_eq!(c.cwd, Some("/work".to_owned()));
            assert_eq!(c.model, Some("m0".to_owned()));
            assert_eq!(c.thread_id, Some("thr_r".to_owned()));
        }
        other => panic!("unexpected {other:?}"),
    }
    let (s, action) = s.step(SessionStartEvent::PreHooksRan { model: Some("m1".to_owned()) });
    match action {
        SessionStartAction::ResumeThread { thread_id, params } => {
            assert_eq!(thread_id, "thr_r");
            assert_eq!(params.model, Some("m1".to_owned()));
        }
        other => panic!("unexpected {other:?}"),
    }
    let (s, action) = s.step(SessionStartEvent::ThreadOpened(Err(RpcError::Timeout)));
    match action {
        SessionStartAction::RunPostHooks(c) => {
            assert_eq!(c.phase, HookPhase::PostSessionStart);
            assert_eq!(c.thread_id, Some("thr_r".to_owned()));
            assert_eq!(c.model, Some("m1".to_owned()));
            assert_eq!(c.main_ok, Some(false));
        }
        other => panic!("unexpected {other:?}"),
    }
    let (_, action) = s.step(SessionStartEvent::PostHooksRan);
    assert!(matches!(action, SessionStartAction::Finish(Err(RpcError::Timeout))));
}

#[test]
fn session_resume_refuses_another_thread_id() {
    let (s, _) = SessionStart::start(params(), Some("thr_a".to_owned()), false);
    let (_, action) = s.step(SessionStartEvent::ThreadOpened(Ok("thr_b".to_owned())));
    match action {
        SessionStartAction::Finish(Err(RpcError::InvalidRequest(m))) => {
            assert_eq!(m, "thread/resume returned mismatched thread id: requested=thr_a actual=thr_b")
        }
        other => panic!("unexpected {other:?}"),
    }
}

#[test]
fn session_start_applies_the_escalation_gate() {
    let mut p = params();
    p.sandbox_policy = Some(SandboxPolicy::Preset(SandboxPreset::DangerFullAccess));
    p.approval_policy = Some(ApprovalPolicy::OnRequest);
    let (_, action) = SessionStart::start(p, None, false);
    match action {
        SessionStartAction::Finish(Err(RpcError::InvalidRequest(m))) => {
            assert_eq!(m, "privileged sandbox requires explicit escalation approval")
        }
        other => panic!("unexpected {other:?}"),
    }
}
