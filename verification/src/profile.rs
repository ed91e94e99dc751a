//! Reusable run profiles, session defaults and prompt-run builders, and the
//! prompt runs and thread overrides they expand to.
use vstd::prelude::*;
use crate::api_types::{
    clone_sandbox_policy, policy_same, ApprovalPolicy, ReasoningEffort, SandboxPolicy, SandboxPreset,
    DEFAULT_REASONING_EFFORT,
};
use crate::hooks::RuntimeHookConfig;
use crate::text::owned;
use crate::wire::{clone_opt_string, PromptAttachment, PromptRunParams, ThreadStartParams};

verus! {

/// Timeout of a run when none is set: two minutes, in milliseconds.
pub const DEFAULT_RUN_TIMEOUT_MS: u64 = 120_000;

/// Settings shared by many runs.
#[derive(Debug)]
pub struct RunProfile {
    pub model: Option<String>,
    pub effort: ReasoningEffort,
    pub approval_policy: ApprovalPolicy,
    pub sandbox_policy: SandboxPolicy,
    /// Explicit opt-in to privileged sandbox use.
    pub privileged_escalation_approved: bool,
    pub attachments: Vec<PromptAttachment>,
    /// Run timeout in milliseconds.
    pub timeout_ms: u64,
    pub hooks: RuntimeHookConfig,
}

/// The safe defaults: no model override, default effort, approval never
/// asked, read-only sandbox, no escalation, no attachments, two minutes,
/// no hooks.
pub open spec fn is_default_profile(p: RunProfile) -> bool {
    &&& p.model is None
    &&& p.effort == DEFAULT_REASONING_EFFORT
    &&& p.approval_policy == ApprovalPolicy::Never
    &&& p.sandbox_policy matches SandboxPolicy::Preset(SandboxPreset::ReadOnly)
    &&& !p.privileged_escalation_approved
    &&& p.attachments@.len() == 0
    &&& p.timeout_ms == DEFAULT_RUN_TIMEOUT_MS
    &&& p.hooks.pre_hooks@.len() == 0
    &&& p.hooks.post_hooks@.len() == 0
}

impl Default for RunProfile {
    fn default() -> (p: Self)
        ensures
            is_default_profile(p),
    {
        RunProfile {
            model: None,
            effort: DEFAULT_REASONING_EFFORT,
            approval_policy: ApprovalPolicy::Never,
            sandbox_policy: SandboxPolicy::Preset(SandboxPreset::ReadOnly),
            privileged_escalation_approved: false,
            attachments: Vec::new(),
            timeout_ms: DEFAULT_RUN_TIMEOUT_MS,
            hooks: RuntimeHookConfig::new(),
        }
    }
}

/// `after` is `before` with `att` added after the other attachments.
pub open spec fn pushed_attachment(before: Seq<PromptAttachment>, after: Seq<PromptAttachment>, att: PromptAttachment) -> bool {
    after == before.push(att)
}

/// `a` is the `@path` attachment of `path` with the given placeholder.
pub open spec fn is_at_path(a: PromptAttachment, path: Seq<char>, placeholder: Option<Seq<char>>) -> bool {
    a matches PromptAttachment::AtPath { path: p, placeholder: ph } && p@ == path && match (ph, placeholder) {
        (Some(x), Some(y)) => x@ == y,
        (None, None) => true,
        _ => false,
    }
}

/// `after` is `before` with one more attachment, which `last` describes.
pub open spec fn appended_one(before: Seq<PromptAttachment>, after: Seq<PromptAttachment>, last: spec_fn(PromptAttachment) -> bool) -> bool {
    &&& after.len() == before.len() + 1
    &&& after == before.push(after.last())
    &&& last(after.last())
}

impl RunProfile {
    /// A profile with the safe defaults.
    pub fn new() -> (p: Self)
        ensures
            is_default_profile(p),
    {
        RunProfile::default()
    }

    /// Sets the model.
    pub fn with_model(self, model: &str) -> (p: Self)
        ensures
            p.model matches Some(m) && m@ == model@,
            p == (RunProfile { model: p.model, ..self }),
    {
        let mut p = self;
        p.model = Some(owned(model));
        p
    }

    /// Sets the reasoning effort.
    pub fn with_effort(self, effort: ReasoningEffort) -> (p: Self)
        ensures
            p == (RunProfile { effort, ..self }),
    {
        let mut p = self;
        p.effort = effort;
        p
    }

    /// Sets the approval policy.
    pub fn with_approval_policy(self, approval_policy: ApprovalPolicy) -> (p: Self)
        ensures
            p == (RunProfile { approval_policy, ..self }),
    {
        let mut p = self;
        p.approval_policy = approval_policy;
        p
    }

    /// Sets the sandbox policy.
    pub fn with_sandbox_policy(self, sandbox_policy: SandboxPolicy) -> (p: Self)
        ensures
            p == (RunProfile { sandbox_policy, ..self }),
    {
        let mut p = self;
        p.sandbox_policy = sandbox_policy;
        p
    }

    /// Opts in to privileged sandbox escalation.
    pub fn allow_privileged_escalation(self) -> (p: Self)
        ensures
            p == (RunProfile { privileged_escalation_approved: true, ..self }),
    {
        let mut p = self;
        p.privileged_escalation_approved = true;
        p
    }

    /// Sets the timeout, in milliseconds.
    pub fn with_timeout(self, timeout_ms: u64) -> (p: Self)
        ensures
            p == (RunProfile { timeout_ms, ..self }),
    {
        let mut p = self;
        p.timeout_ms = timeout_ms;
        p
    }

    /// Adds an attachment after the others.
    pub fn with_attachment(self, attachment: PromptAttachment) -> (p: Self)
        ensures
            pushed_attachment(self.attachments@, p.attachments@, attachment),
            p == (RunProfile { attachments: p.attachments, ..self }),
    {
        let mut p = self;
        p.attachments.push(attachment);
        p
    }

    /// Adds the `@path` attachment of `path`.
    pub fn attach_path(self, path: &str) -> (p: Self)
        ensures
            appended_one(self.attachments@, p.attachments@, |a: PromptAttachment| is_at_path(a, path@, None)),
            p == (RunProfile { attachments: p.attachments, ..self }),
    {
        self.with_attachment(PromptAttachment::AtPath { path: owned(path), placeholder: None })
    }

    /// Adds the `@path` attachment of `path` with a placeholder.
    pub fn attach_path_with_placeholder(self, path: &str, placeholder: &str) -> (p: Self)
        ensures
            appended_one(self.attachments@, p.attachments@, |a: PromptAttachment| is_at_path(a, path@, Some(placeholder@))),
            p == (RunProfile { attachments: p.attachments, ..self }),
    {
        self.with_attachment(PromptAttachment::AtPath { path: owned(path), placeholder: Some(owned(placeholder)) })
    }

    /// Adds a remote image.
    pub fn attach_image_url(self, url: &str) -> (p: Self)
        ensures
            appended_one(self.attachments@, p.attachments@,
                |a: PromptAttachment| a matches PromptAttachment::ImageUrl { url: u } && u@ == url@),
            p == (RunProfile { attachments: p.attachments, ..self }),
    {
        self.with_attachment(PromptAttachment::ImageUrl { url: owned(url) })
    }

    /// Adds a local image.
    pub fn attach_local_image(self, path: &str) -> (p: Self)
        ensures
            appended_one(self.attachments@, p.attachments@,
                |a: PromptAttachment| a matches PromptAttachment::LocalImage { path: x } && x@ == path@),
            p == (RunProfile { attachments: p.attachments, ..self }),
    {
        self.with_attachment(PromptAttachment::LocalImage { path: owned(path) })
    }

    /// Adds a skill.
    pub fn attach_skill(self, name: &str, path: &str) -> (p: Self)
        ensures
            appended_one(self.attachments@, p.attachments@,
                |a: PromptAttachment| a matches PromptAttachment::Skill { name: n, path: x } && n@ == name@ && x@ == path@),
            p == (RunProfile { attachments: p.attachments, ..self }),
    {
        self.with_attachment(PromptAttachment::Skill { name: owned(name), path: owned(path) })
    }

    /// Replaces the hooks.
    pub fn with_hooks(self, hooks: RuntimeHookConfig) -> (p: Self)
        ensures
            p == (RunProfile { hooks, ..self }),
    {
        let mut p = self;
        p.hooks = hooks;
        p
    }

    /// Adds a pre hook after the others.
    pub fn with_pre_hook(self, hook: String) -> (p: Self)
        ensures
            p.hooks.pre_hooks@ == self.hooks.pre_hooks@.push(hook),
            p.hooks.post_hooks@ == self.hooks.post_hooks@,
            p == (RunProfile { hooks: p.hooks, ..self }),
    {
        let mut p = self;
        p.hooks.pre_hooks.push(hook);
        p
    }

    /// Adds a post hook after the others.
    pub fn with_post_hook(self, hook: String) -> (p: Self)
        ensures
            p.hooks.pre_hooks@ == self.hooks.pre_hooks@,
            p.hooks.post_hooks@ == self.hooks.post_hooks@.push(hook),
            p == (RunProfile { hooks: p.hooks, ..self }),
    {
        let mut p = self;
        p.hooks.post_hooks.push(hook);
        p
    }
}

/// Defaults of a session: a working directory and the settings of its turns.
#[derive(Debug)]
pub struct SessionConfig {
    pub cwd: String,
    pub model: Option<String>,
    pub effort: ReasoningEffort,
    pub approval_policy: ApprovalPolicy,
    pub sandbox_policy: SandboxPolicy,
    /// Explicit opt-in to privileged sandbox use.
    pub privileged_escalation_approved: bool,
    pub attachments: Vec<PromptAttachment>,
    /// Turn timeout in milliseconds.
    pub timeout_ms: u64,
    pub hooks: RuntimeHookConfig,
}

/// The session of `cwd` whose settings are those of `p`.
pub open spec fn session_from_profile(cwd: String, p: RunProfile) -> SessionConfig {
    SessionConfig {
        cwd,
        model: p.model,
        effort: p.effort,
        approval_policy: p.approval_policy,
        sandbox_policy: p.sandbox_policy,
        privileged_escalation_approved: p.privileged_escalation_approved,
        attachments: p.attachments,
        timeout_ms: p.timeout_ms,
        hooks: p.hooks,
    }
}

/// `r` is a copy of the settings of `c` (the sandbox policy compared by content).
pub open spec fn profile_copy_of(r: RunProfile, c: SessionConfig) -> bool {
    &&& r.model == c.model
    &&& r.effort == c.effort
    &&& r.approval_policy == c.approval_policy
    &&& policy_same(r.sandbox_policy, c.sandbox_policy)
    &&& r.privileged_escalation_approved == c.privileged_escalation_approved
    &&& r.attachments@ == c.attachments@
    &&& r.timeout_ms == c.timeout_ms
    &&& r.hooks.pre_hooks@ == c.hooks.pre_hooks@
    &&& r.hooks.post_hooks@ == c.hooks.post_hooks@
}

/// `a` and `b` hold the same settings (the sandbox policy compared by content).
pub open spec fn profile_same(a: RunProfile, b: RunProfile) -> bool {
    &&& a.model == b.model
    &&& a.effort == b.effort
    &&& a.approval_policy == b.approval_policy
    &&& policy_same(a.sandbox_policy, b.sandbox_policy)
    &&& a.privileged_escalation_approved == b.privileged_escalation_approved
    &&& a.attachments@ == b.attachments@
    &&& a.timeout_ms == b.timeout_ms
    &&& a.hooks.pre_hooks@ == b.hooks.pre_hooks@
    &&& a.hooks.post_hooks@ == b.hooks.post_hooks@
}

/// The settings of a session made from a profile, read back, are those of
/// the profile.
pub proof fn lemma_profile_round_trip(cwd: String, p: RunProfile, r: RunProfile)
    requires
        profile_copy_of(r, session_from_profile(cwd, p)),
    ensures
        profile_same(r, p),
{
}

/// A copy of an attachment.
pub fn clone_attachment(a: &PromptAttachment) -> (r: PromptAttachment)
    ensures
        r == *a,
{
    match a {
        PromptAttachment::AtPath { path, placeholder } =>
            PromptAttachment::AtPath { path: path.clone(), placeholder: clone_opt_string(placeholder) },
        PromptAttachment::ImageUrl { url } => PromptAttachment::ImageUrl { url: url.clone() },
        PromptAttachment::LocalImage { path } => PromptAttachment::LocalImage { path: path.clone() },
        PromptAttachment::Skill { name, path } => PromptAttachment::Skill { name: name.clone(), path: path.clone() },
    }
}

/// Copies of attachments, in order.
pub fn clone_attachments(v: &Vec<PromptAttachment>) -> (r: Vec<PromptAttachment>)
    ensures
        r@ == v@,
{
    let mut out: Vec<PromptAttachment> = Vec::new();
    let mut i: usize = 0;
    while i < v.len()
        invariant
            i <= v.len(),
            out@ == v@.take(i as int),
        decreases v.len() - i,
    {
        out.push(clone_attachment(&v[i]));
        i += 1;
        assert(out@ =~= v@.take(i as int));
    }
    assert(v@.take(v.len() as int) =~= v@);
    out
}

/// Copies of strings, in order.
pub fn clone_names(v: &Vec<String>) -> (r: Vec<String>)
    ensures
        r@ == v@,
{
    let mut out: Vec<String> = Vec::new();
    let mut i: usize = 0;
    while i < v.len()
        invariant
            i <= v.len(),
            out@ == v@.take(i as int),
        decreases v.len() - i,
    {
        out.push(v[i].clone());
        i += 1;
        assert(out@ =~= v@.take(i as int));
    }
    assert(v@.take(v.len() as int) =~= v@);
    out
}

/// A copy of a hook configuration.
pub fn clone_hooks(h: &RuntimeHookConfig) -> (r: RuntimeHookConfig)
    ensures
        r.pre_hooks@ == h.pre_hooks@,
        r.post_hooks@ == h.post_hooks@,
{
    RuntimeHookConfig { pre_hooks: clone_names(&h.pre_hooks), post_hooks: clone_names(&h.post_hooks) }
}

impl SessionConfig {
    /// A session of `cwd` with the safe defaults.
    pub fn new(cwd: &str) -> (c: Self)
        ensures
            c.cwd@ == cwd@,
            is_default_profile(RunProfile {
                model: c.model,
                effort: c.effort,
                approval_policy: c.approval_policy,
                sandbox_policy: c.sandbox_policy,
                privileged_escalation_approved: c.privileged_escalation_approved,
                attachments: c.attachments,
                timeout_ms: c.timeout_ms,
                hooks: c.hooks,
            }),
    {
        SessionConfig::from_profile(owned(cwd), RunProfile::default())
    }

    /// The session of `cwd` whose settings are those of `profile`.
    pub fn from_profile(cwd: String, profile: RunProfile) -> (c: Self)
        ensures
            c == session_from_profile(cwd, profile),
    {
        SessionConfig {
            cwd,
            model: profile.model,
            effort: profile.effort,
            approval_policy: profile.approval_policy,
            sandbox_policy: profile.sandbox_policy,
            privileged_escalation_approved: profile.privileged_escalation_approved,
            attachments: profile.attachments,
            timeout_ms: profile.timeout_ms,
            hooks: profile.hooks,
        }
    }

    /// The settings of this session, as a profile.
    pub fn profile(&self) -> (r: RunProfile)
        ensures
            profile_copy_of(r, *self),
    {
        RunProfile {
            model: clone_opt_string(&self.model),
            effort: self.effort,
            approval_policy: self.approval_policy,
            sandbox_policy: clone_sandbox_policy(&self.sandbox_policy),
            privileged_escalation_approved: self.privileged_escalation_approved,
            attachments: clone_attachments(&self.attachments),
            timeout_ms: self.timeout_ms,
            hooks: clone_hooks(&self.hooks),
        }
    }

    /// Sets the model.
    pub fn with_model(self, model: &str) -> (c: Self)
        ensures
            c.model matches Some(m) && m@ == model@,
            c == (SessionConfig { model: c.model, ..self }),
    {
        let mut c = self;
        c.model = Some(owned(model));
        c
    }

    /// Sets the reasoning effort.
    pub fn with_effort(self, effort: ReasoningEffort) -> (c: Self)
        ensures
            c == (SessionConfig { effort, ..self }),
    {
        let mut c = self;
        c.effort = effort;
        c
    }

    /// Sets the approval policy.
    pub fn with_approval_policy(self, approval_policy: ApprovalPolicy) -> (c: Self)
        ensures
            c == (SessionConfig { approval_policy, ..self }),
    {
        let mut c = self;
        c.approval_policy = approval_policy;
        c
    }

    /// Sets the sandbox policy.
    pub fn with_sandbox_policy(self, sandbox_policy: SandboxPolicy) -> (c: Self)
        ensures
            c == (SessionConfig { sandbox_policy, ..self }),
    {
        let mut c = self;
        c.sandbox_policy = sandbox_policy;
        c
    }

    /// Opts in to privileged sandbox escalation.
    pub fn allow_privileged_escalation(self) -> (c: Self)
        ensures
            c == (SessionConfig { privileged_escalation_approved: true, ..self }),
    {
        let mut c = self;
        c.privileged_escalation_approved = true;
        c
    }

    /// Sets the timeout of each turn, in milliseconds.
    pub fn with_timeout(self, timeout_ms: u64) -> (c: Self)
        ensures
            c == (SessionConfig { timeout_ms, ..self }),
    {
        let mut c = self;
        c.timeout_ms = timeout_ms;
        c
    }

    /// Adds an attachment after the others.
    pub fn with_attachment(self, attachment: PromptAttachment) -> (c: Self)
        ensures
            pushed_attachment(self.attachments@, c.attachments@, attachment),
            c == (SessionConfig { attachments: c.attachments, ..self }),
    {
        let mut c = self;
        c.attachments.push(attachment);
        c
    }

    /// Adds the `@path` attachment of `path`.
    pub fn attach_path(self, path: &str) -> (c: Self)
        ensures
            appended_one(self.attachments@, c.attachments@, |a: PromptAttachment| is_at_path(a, path@, None)),
            c == (SessionConfig { attachments: c.attachments, ..self }),
    {
        self.with_attachment(PromptAttachment::AtPath { path: owned(path), placeholder: None })
    }

    /// Adds the `@path` attachment of `path` with a placeholder.
    pub fn attach_path_with_placeholder(self, path: &str, placeholder: &str) -> (c: Self)
        ensures
            appended_one(self.attachments@, c.attachments@, |a: PromptAttachment| is_at_path(a, path@, Some(placeholder@))),
            c == (SessionConfig { attachments: c.attachments, ..self }),
    {
        self.with_attachment(PromptAttachment::AtPath { path: owned(path), placeholder: Some(owned(placeholder)) })
    }

    /// Adds a remote image.
    pub fn attach_image_url(self, url: &str) -> (c: Self)
        ensures
            appended_one(self.attachments@, c.attachments@,
                |a: PromptAttachment| a matches PromptAttachment::ImageUrl { url: u } && u@ == url@),
            c == (SessionConfig { attachments: c.attachments, ..self }),
    {
        self.with_attachment(PromptAttachment::ImageUrl { url: owned(url) })
    }

    /// Adds a local image.
    pub fn attach_local_image(self, path: &str) -> (c: Self)
        ensures
            appended_one(self.attachments@, c.attachments@,
                |a: PromptAttachment| a matches PromptAttachment::LocalImage { path: x } && x@ == path@),
            c == (SessionConfig { attachments: c.attachments, ..self }),
    {
        self.with_attachment(PromptAttachment::LocalImage { path: owned(path) })
    }

    /// Adds a skill.
    pub fn attach_skill(self, name: &str, path: &str) -> (c: Self)
        ensures
            appended_one(self.attachments@, c.attachments@,
                |a: PromptAttachment| a matches PromptAttachment::Skill { name: n, path: x } && n@ == name@ && x@ == path@),
            c == (SessionConfig { attachments: c.attachments, ..self }),
    {
        self.with_attachment(PromptAttachment::Skill { name: owned(name), path: owned(path) })
    }

    /// Replaces the hooks.
    pub fn with_hooks(self, hooks: RuntimeHookConfig) -> (c: Self)
        ensures
            c == (SessionConfig { hooks, ..self }),
    {
        let mut c = self;
        c.hooks = hooks;
        c
    }

    /// Adds a pre hook after the others.
    pub fn with_pre_hook(self, hook: String) -> (c: Self)
        ensures
            c.hooks.pre_hooks@ == self.hooks.pre_hooks@.push(hook),
            c.hooks.post_hooks@ == self.hooks.post_hooks@,
            c == (SessionConfig { hooks: c.hooks, ..self }),
    {
        let mut c = self;
        c.hooks.pre_hooks.push(hook);
        c
    }

    /// Adds a post hook after the others.
    pub fn with_post_hook(self, hook: String) -> (c: Self)
        ensures
            c.hooks.pre_hooks@ == self.hooks.pre_hooks@,
            c.hooks.post_hooks@ == self.hooks.post_hooks@.push(hook),
            c == (SessionConfig { hooks: c.hooks, ..self }),
    {
        let mut c = self;
        c.hooks.post_hooks.push(hook);
        c
    }
}

impl PromptRunParams {
    /// A run of `prompt` in `cwd` with the safe defaults: no model
    /// override, the default effort, approval never asked, a read-only
    /// sandbox, no escalation, no attachments, two minutes.
    pub fn new(cwd: &str, prompt: &str) -> (p: Self)
        ensures
            p.cwd@ == cwd@,
            p.prompt@ == prompt@,
            p.model is None,
            p.effort == Some(DEFAULT_REASONING_EFFORT),
            p.approval_policy == ApprovalPolicy::Never,
            p.sandbox_policy matches SandboxPolicy::Preset(SandboxPreset::ReadOnly),
            !p.privileged_escalation_approved,
            p.attachments@.len() == 0,
            p.timeout_ms == DEFAULT_RUN_TIMEOUT_MS,
    {
        PromptRunParams {
            cwd: owned(cwd),
            prompt: owned(prompt),
            model: None,
            effort: Some(DEFAULT_REASONING_EFFORT),
            approval_policy: ApprovalPolicy::Never,
            sandbox_policy: SandboxPolicy::Preset(SandboxPreset::ReadOnly),
            privileged_escalation_approved: false,
            attachments: Vec::new(),
            timeout_ms: DEFAULT_RUN_TIMEOUT_MS,
        }
    }

    /// Sets the model.
    pub fn with_model(self, model: &str) -> (p: Self)
        ensures
            p.model matches Some(m) && m@ == model@,
            p == (PromptRunParams { model: p.model, ..self }),
    {
        let mut p = self;
        p.model = Some(owned(model));
        p
    }

    /// Sets the reasoning effort.
    pub fn with_effort(self, effort: ReasoningEffort) -> (p: Self)
        ensures
            p == (PromptRunParams { effort: Some(effort), ..self }),
    {
        let mut p = self;
        p.effort = Some(effort);
        p
    }

    /// Sets the approval policy.
    pub fn with_approval_policy(self, approval_policy: ApprovalPolicy) -> (p: Self)
        ensures
            p == (PromptRunParams { approval_policy, ..self }),
    {
        let mut p = self;
        p.approval_policy = approval_policy;
        p
    }

    /// Sets the sandbox policy.
    pub fn with_sandbox_policy(self, sandbox_policy: SandboxPolicy) -> (p: Self)
        ensures
            p == (PromptRunParams { sandbox_policy, ..self }),
    {
        let mut p = self;
        p.sandbox_policy = sandbox_policy;
        p
    }

    /// Opts in to privileged sandbox escalation.
    pub fn allow_privileged_escalation(self) -> (p: Self)
        ensures
            p == (PromptRunParams { privileged_escalation_approved: true, ..self }),
    {
        let mut p = self;
        p.privileged_escalation_approved = true;
        p
    }

    /// Sets the timeout, in milliseconds.
    pub fn with_timeout(self, timeout_ms: u64) -> (p: Self)
        ensures
            p == (PromptRunParams { timeout_ms, ..self }),
    {
        let mut p = self;
        p.timeout_ms = timeout_ms;
        p
    }

    /// Adds an attachment after the others.
    pub fn with_attachment(self, attachment: PromptAttachment) -> (p: Self)
        ensures
            pushed_attachment(self.attachments@, p.attachments@, attachment),
            p == (PromptRunParams { attachments: p.attachments, ..self }),
    {
        let mut p = self;
        p.attachments.push(attachment);
        p
    }

    /// Adds the `@path` attachment of `path`.
    pub fn attach_path(self, path: &str) -> (p: Self)
        ensures
            appended_one(self.attachments@, p.attachments@, |a: PromptAttachment| is_at_path(a, path@, None)),
            p == (PromptRunParams { attachments: p.attachments, ..self }),
    {
        self.with_attachment(PromptAttachment::AtPath { path: owned(path), placeholder: None })
    }

    /// Adds the `@path` attachment of `path` with a placeholder.
    pub fn attach_path_with_placeholder(self, path: &str, placeholder: &str) -> (p: Self)
        ensures
            appended_one(self.attachments@, p.attachments@, |a: PromptAttachment| is_at_path(a, path@, Some(placeholder@))),
            p == (PromptRunParams { attachments: p.attachments, ..self }),
    {
        self.with_attachment(PromptAttachment::AtPath { path: owned(path), placeholder: Some(owned(placeholder)) })
    }

    /// Adds a remote image.
    pub fn attach_image_url(self, url: &str) -> (p: Self)
        ensures
            appended_one(self.attachments@, p.attachments@,
                |a: PromptAttachment| a matches PromptAttachment::ImageUrl { url: u } && u@ == url@),
            p == (PromptRunParams { attachments: p.attachments, ..self }),
    {
        self.with_attachment(PromptAttachment::ImageUrl { url: owned(url) })
    }

    /// Adds a local image.
    pub fn attach_local_image(self, path: &str) -> (p: Self)
        ensures
            appended_one(self.attachments@, p.attachments@,
                |a: PromptAttachment| a matches PromptAttachment::LocalImage { path: x } && x@ == path@),
            p == (PromptRunParams { attachments: p.attachments, ..self }),
    {
        self.with_attachment(PromptAttachment::LocalImage { path: owned(path) })
    }

    /// Adds a skill.
    pub fn attach_skill(self, name: &str, path: &str) -> (p: Self)
        ensures
            appended_one(self.attachments@, p.attachments@,
                |a: PromptAttachment| a matches PromptAttachment::Skill { name: n, path: x } && n@ == name@ && x@ == path@),
            p == (PromptRunParams { attachments: p.attachments, ..self }),
    {
        self.with_attachment(PromptAttachment::Skill { name: owned(name), path: owned(path) })
    }
}

/// One prompt run of a session: the session's settings, with its effort
/// always given, and the prompt.
pub fn session_prompt_params(config: &SessionConfig, prompt: &str) -> (r: PromptRunParams)
    ensures
        r.cwd == config.cwd,
        r.prompt@ == prompt@,
        r.model == config.model,
        r.effort == Some(config.effort),
        r.approval_policy == config.approval_policy,
        policy_same(r.sandbox_policy, config.sandbox_policy),
        r.privileged_escalation_approved == config.privileged_escalation_approved,
        r.attachments@ == config.attachments@,
        r.timeout_ms == config.timeout_ms,
{
    PromptRunParams {
        cwd: config.cwd.clone(),
        prompt: owned(prompt),
        model: clone_opt_string(&config.model),
        effort: Some(config.effort),
        approval_policy: config.approval_policy,
        sandbox_policy: clone_sandbox_policy(&config.sandbox_policy),
        privileged_escalation_approved: config.privileged_escalation_approved,
        attachments: clone_attachments(&config.attachments),
        timeout_ms: config.timeout_ms,
    }
}

/// One prompt run in `cwd` with the settings of a profile, its effort
/// always given.
pub fn profile_to_prompt_params(cwd: String, prompt: &str, profile: RunProfile) -> (r: PromptRunParams)
    ensures
        r.cwd == cwd,
        r.prompt@ == prompt@,
        r.model == profile.model,
        r.effort == Some(profile.effort),
        r.approval_policy == profile.approval_policy,
        r.sandbox_policy == profile.sandbox_policy,
        r.privileged_escalation_approved == profile.privileged_escalation_approved,
        r.attachments == profile.attachments,
        r.timeout_ms == profile.timeout_ms,
{
    PromptRunParams {
        cwd,
        prompt: owned(prompt),
        model: profile.model,
        effort: Some(profile.effort),
        approval_policy: profile.approval_policy,
        sandbox_policy: profile.sandbox_policy,
        privileged_escalation_approved: profile.privileged_escalation_approved,
        attachments: profile.attachments,
        timeout_ms: profile.timeout_ms,
    }
}

/// Thread overrides of a session: its model, cwd, policies and escalation
/// opt-in, all given.
pub fn session_thread_start_params(config: &SessionConfig) -> (r: ThreadStartParams)
    ensures
        r.model == config.model,
        r.cwd == Some(config.cwd),
        r.approval_policy == Some(config.approval_policy),
        r.sandbox_policy matches Some(sp) && policy_same(sp, config.sandbox_policy),
        r.privileged_escalation_approved == config.privileged_escalation_approved,
{
    ThreadStartParams {
        model: clone_opt_string(&config.model),
        cwd: Some(config.cwd.clone()),
        approval_policy: Some(config.approval_policy),
        sandbox_policy: Some(clone_sandbox_policy(&config.sandbox_policy)),
        privileged_escalation_approved: config.privileged_escalation_approved,
    }
}

} // verus!
