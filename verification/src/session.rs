//! Starting or resuming a thread with the session hooks, as a state
//! machine driven by the outcomes of its calls.
use vstd::prelude::*;
use crate::api_types::{clone_sandbox_policy, policy_same, SandboxPolicy};
use crate::errors::{is_invalid_request_with, RpcError};
use crate::hooks::{HookContext, HookPhase};
use crate::prompt::{mismatch_message, resume_mismatch};
use crate::text::str_eq;
use crate::wire::{clone_opt_string, opt_string_seq, security_error, validate_thread_start_security, ThreadStartParams};

verus! {

/// `a` and `b` are the same thread parameters (sandbox policies compared
/// by `policy_same`).
pub open spec fn start_params_same(a: ThreadStartParams, b: ThreadStartParams) -> bool {
    &&& a.model == b.model
    &&& a.cwd == b.cwd
    &&& a.approval_policy == b.approval_policy
    &&& match (a.sandbox_policy, b.sandbox_policy) {
        (Some(x), Some(y)) => policy_same(x, y),
        (None, None) => true,
        _ => false,
    }
    &&& a.privileged_escalation_approved == b.privileged_escalation_approved
}

/// A copy of thread parameters.
pub fn clone_thread_start_params(p: &ThreadStartParams) -> (r: ThreadStartParams)
    ensures
        start_params_same(r, *p),
{
    ThreadStartParams {
        model: clone_opt_string(&p.model),
        cwd: clone_opt_string(&p.cwd),
        approval_policy: p.approval_policy,
        sandbox_policy: match &p.sandbox_policy {
            Some(sp) => Some(clone_sandbox_policy(sp)),
            None => None,
        },
        privileged_escalation_approved: p.privileged_escalation_approved,
    }
}

/// Where a session start stands.
#[derive(Debug)]
pub enum SessionStartPhase {
    /// Waiting for the pre-session hooks.
    RunningPreHooks,
    /// Waiting for the thread to be started or resumed.
    Opening,
    /// Waiting for the post-session hooks; the start then ends with
    /// `result`.
    RunningPostHooks { result: Result<String, RpcError> },
    /// The start is over.
    Finished,
}

/// What the caller of a session start does next.
#[derive(Debug)]
pub enum SessionStartAction {
    /// Run the pre-session hooks with this context and report the model
    /// their decisions leave.
    RunPreHooks(HookContext),
    /// Send `thread/start` with these params.
    StartThread(ThreadStartParams),
    /// Send `thread/resume` for this thread with these params.
    ResumeThread { thread_id: String, params: ThreadStartParams },
    /// Run the post-session hooks with this context.
    RunPostHooks(HookContext),
    /// End with the thread's id, or the error.
    Finish(Result<String, RpcError>),
}

/// What happened to the last action.
#[derive(Debug)]
pub enum SessionStartEvent {
    /// The pre-session hooks ran; their decisions left this model.
    PreHooksRan { model: Option<String> },
    /// The thread was started or resumed: the id in the reply, or the error.
    ThreadOpened(Result<String, RpcError>),
    /// The post-session hooks ran.
    PostHooksRan,
}

/// Starting a new thread, or resuming `requested`, with `params`; with the
/// session hook phases when `hooks` (hooks are configured).
#[derive(Debug)]
pub struct SessionStart {
    pub params: ThreadStartParams,
    pub requested: Option<String>,
    pub hooks: bool,
    pub phase: SessionStartPhase,
}

/// The context of the pre-session hooks for `params`, resuming `requested`
/// when given.
pub open spec fn pre_session_context(params: ThreadStartParams, requested: Option<String>, c: HookContext) -> bool {
    &&& c.phase == HookPhase::PreSessionStart
    &&& c.cwd == params.cwd
    &&& c.model == params.model
    &&& c.thread_id == requested
    &&& c.turn_id is None
    &&& c.main_ok is None
}

/// The context of the post-session hooks for `params` after `result`: the
/// thread of the result, else the requested one when resuming.
pub open spec fn post_session_context(params: ThreadStartParams, requested: Option<String>, result: Result<String, RpcError>, c: HookContext) -> bool {
    &&& c.phase == HookPhase::PostSessionStart
    &&& c.cwd == params.cwd
    &&& c.model == params.model
    &&& c.thread_id == match result {
        Ok(t) => Some(t),
        Err(_) => requested,
    }
    &&& c.turn_id is None
    &&& c.main_ok == Some(result is Ok)
}

/// `(s, a)` ends the start `old` with `result`: through the post-session
/// hooks when hooks are configured, else at once.
pub open spec fn session_ends_with(old: SessionStart, s: SessionStart, a: SessionStartAction, result: Result<String, RpcError>) -> bool {
    &&& s.params == old.params
    &&& s.requested == old.requested
    &&& s.hooks == old.hooks
    &&& if old.hooks {
        &&& s.phase == (SessionStartPhase::RunningPostHooks { result })
        &&& a matches SessionStartAction::RunPostHooks(c)
        &&& post_session_context(old.params, old.requested, result, c)
    } else {
        s.phase is Finished && a == SessionStartAction::Finish(result)
    }
}

/// `(s, a)` opens the thread of start `old`: the escalation gate refuses
/// with an invalid request (see `security_error`), else the requested
/// thread is resumed, or a new one started, with the same params.
pub open spec fn session_opened(old: SessionStart, s: SessionStart, a: SessionStartAction) -> bool {
    let p = old.params;
    match security_error(p.sandbox_policy, p.privileged_escalation_approved, p.approval_policy, opt_string_seq(p.cwd)) {
        Some(m) => exists|e: RpcError| #[trigger] is_invalid_request_with(e, m)
            && session_ends_with(old, s, a, Err(e)),
        None => {
            &&& s.params == p
            &&& s.requested == old.requested
            &&& s.hooks == old.hooks
            &&& s.phase is Opening
            &&& match a {
                SessionStartAction::StartThread(tp) => old.requested is None && start_params_same(tp, p),
                SessionStartAction::ResumeThread { thread_id, params: tp } =>
                    old.requested == Some(thread_id) && start_params_same(tp, p),
                _ => false,
            }
        },
    }
}

impl SessionStart {
    /// Ends this start with `result` (see `session_ends_with`).
    fn finish(self, result: Result<String, RpcError>) -> (r: (SessionStart, SessionStartAction))
        ensures
            session_ends_with(self, r.0, r.1, result),
    {
        let SessionStart { params, requested, hooks, phase: _ } = self;
        if hooks {
            let thread_id = match &result {
                Ok(t) => Some(t.clone()),
                Err(_) => clone_opt_string(&requested),
            };
            let c = HookContext {
                phase: HookPhase::PostSessionStart,
                cwd: clone_opt_string(&params.cwd),
                model: clone_opt_string(&params.model),
                thread_id,
                turn_id: None,
                main_ok: Some(result.is_ok()),
            };
            (SessionStart { params, requested, hooks, phase: SessionStartPhase::RunningPostHooks { result } },
             SessionStartAction::RunPostHooks(c))
        } else {
            (SessionStart { params, requested, hooks, phase: SessionStartPhase::Finished }, SessionStartAction::Finish(result))
        }
    }

    /// Opens the thread (see `session_opened`).
    fn open(self) -> (r: (SessionStart, SessionStartAction))
        ensures
            session_opened(self, r.0, r.1),
    {
        match validate_thread_start_security(&self.params) {
            Err(e) => {
                let ghost g = e;
                let r = self.finish(Err(e));
                assert(is_invalid_request_with(g, security_error(self.params.sandbox_policy,
                    self.params.privileged_escalation_approved, self.params.approval_policy,
                    opt_string_seq(self.params.cwd))->0));
                return r;
            },
            Ok(()) => {},
        }
        let tp = clone_thread_start_params(&self.params);
        let SessionStart { params, requested, hooks, phase: _ } = self;
        match requested {
            Some(t) => {
                let t2 = t.clone();
                (SessionStart { params, requested: Some(t), hooks, phase: SessionStartPhase::Opening },
                 SessionStartAction::ResumeThread { thread_id: t2, params: tp })
            },
            None => (SessionStart { params, requested: None, hooks, phase: SessionStartPhase::Opening },
                SessionStartAction::StartThread(tp)),
        }
    }

    /// Starts a new thread, or resumes `requested`, with `params`: the
    /// pre-session hooks come first when `hooks`; otherwise the thread is
    /// opened at once (see `session_opened`).
    pub fn start(params: ThreadStartParams, requested: Option<String>, hooks: bool) -> (r: (SessionStart, SessionStartAction))
        ensures
            hooks ==> r.0.params == params && r.0.requested == requested && r.0.hooks
                && r.0.phase is RunningPreHooks
                && (r.1 matches SessionStartAction::RunPreHooks(c) && pre_session_context(params, requested, c)),
            !hooks ==> session_opened(SessionStart { params, requested, hooks, phase: SessionStartPhase::RunningPreHooks }, r.0, r.1),
    {
        if hooks {
            let c = HookContext {
                phase: HookPhase::PreSessionStart,
                cwd: clone_opt_string(&params.cwd),
                model: clone_opt_string(&params.model),
                thread_id: clone_opt_string(&requested),
                turn_id: None,
                main_ok: None,
            };
            (SessionStart { params, requested, hooks, phase: SessionStartPhase::RunningPreHooks }, SessionStartAction::RunPreHooks(c))
        } else {
            SessionStart { params, requested, hooks, phase: SessionStartPhase::RunningPreHooks }.open()
        }
    }

    /// Takes in what happened to the last action: after the pre-session
    /// hooks the model they left is used and the thread opened; an opened
    /// thread (the one asked for, when resuming) or the error ends the
    /// start through the post-session hooks when hooks are configured; an
    /// event that does not fit the phase ends it with an invalid request.
    pub fn step(self, event: SessionStartEvent) -> (r: (SessionStart, SessionStartAction))
        ensures
            match (self.phase, event) {
                (SessionStartPhase::RunningPreHooks, SessionStartEvent::PreHooksRan { model }) =>
                    session_opened(SessionStart { params: ThreadStartParams { model, ..self.params }, ..self }, r.0, r.1),
                (SessionStartPhase::Opening, SessionStartEvent::ThreadOpened(Ok(t))) =>
                    if self.requested is Some && self.requested.unwrap()@ != t@ {
                        exists|e: RpcError| #[trigger] is_invalid_request_with(e, mismatch_message(self.requested.unwrap()@, t@))
                            && session_ends_with(self, r.0, r.1, Err(e))
                    } else {
                        session_ends_with(self, r.0, r.1, Ok(t))
                    },
                (SessionStartPhase::Opening, SessionStartEvent::ThreadOpened(Err(e))) =>
                    session_ends_with(self, r.0, r.1, Err(e)),
                (SessionStartPhase::RunningPostHooks { result }, SessionStartEvent::PostHooksRan) =>
                    r.0.phase is Finished && r.1 == SessionStartAction::Finish(result),
                (_, _) => r.0.phase is Finished && r.1 matches SessionStartAction::Finish(Err(RpcError::InvalidRequest(_))),
            },
    {
        let SessionStart { params, requested, hooks, phase } = self;
        match phase {
            SessionStartPhase::RunningPreHooks => match event {
                SessionStartEvent::PreHooksRan { model } => {
                    let params = ThreadStartParams { model, ..params };
                    SessionStart { params, requested, hooks, phase: SessionStartPhase::RunningPreHooks }.open()
                },
                _ => out_of_order(params, requested, hooks),
            },
            SessionStartPhase::Opening => match event {
                SessionStartEvent::ThreadOpened(Ok(t)) => {
                    let mismatch = match &requested {
                        Some(q) => !str_eq(q.as_str(), t.as_str()),
                        None => false,
                    };
                    if mismatch {
                        let e = match &requested {
                            Some(q) => resume_mismatch(q.as_str(), t.as_str()),
                            None => RpcError::Timeout,
                        };
                        let ghost g = e;
                        let r = SessionStart { params, requested, hooks, phase: SessionStartPhase::Opening }.finish(Err(e));
                        assert(is_invalid_request_with(g, mismatch_message(self.requested.unwrap()@, t@)));
                        r
                    } else {
                        SessionStart { params, requested, hooks, phase: SessionStartPhase::Opening }.finish(Ok(t))
                    }
                },
                SessionStartEvent::ThreadOpened(Err(e)) =>
                    SessionStart { params, requested, hooks, phase: SessionStartPhase::Opening }.finish(Err(e)),
                _ => out_of_order(params, requested, hooks),
            },
            SessionStartPhase::RunningPostHooks { result } => match event {
                SessionStartEvent::PostHooksRan =>
                    (SessionStart { params, requested, hooks, phase: SessionStartPhase::Finished }, SessionStartAction::Finish(result)),
                _ => out_of_order(params, requested, hooks),
            },
            SessionStartPhase::Finished => out_of_order(params, requested, hooks),
        }
    }
}

/// Ends a start that got an event its phase does not expect.
fn out_of_order(params: ThreadStartParams, requested: Option<String>, hooks: bool) -> (r: (SessionStart, SessionStartAction))
    ensures
        r.0.phase is Finished,
        r.1 matches SessionStartAction::Finish(Err(RpcError::InvalidRequest(_))),
{
    (SessionStart { params, requested, hooks, phase: SessionStartPhase::Finished },
     SessionStartAction::Finish(Err(RpcError::InvalidRequest(crate::text::owned("session start event out of order")))))
}

} // verus!
