use coclai::api_types::{ApprovalPolicy, ReasoningEffort, SandboxPolicy, SandboxPreset};
use coclai::hooks::RuntimeHookConfig;
use coclai::profile::{
    profile_to_prompt_params, session_prompt_params, session_thread_start_params, RunProfile,
    SessionConfig, DEFAULT_RUN_TIMEOUT_MS,
};
use coclai::wire::PromptAttachment;

fn is_read_only(p: &SandboxPolicy) -> bool {
    matches!(p, SandboxPolicy::Preset(SandboxPreset::ReadOnly))
}

fn is_workspace_write(p: &SandboxPolicy, roots: &[&str], network: bool) -> bool {
    match p {
        SandboxPolicy::Preset(SandboxPreset::WorkspaceWrite { writable_roots, network_access }) => {
            writable_roots.iter().map(|s| s.as_str()).collect::<Vec<_>>() == roots
                && *network_access == network
        }
        _ => false,
    }
}

fn workspace_write(roots: &[&str], network: bool) -> SandboxPolicy {
    SandboxPolicy::Preset(SandboxPreset::WorkspaceWrite {
        writable_roots: roots.iter().map(|s| s.to_string()).collect(),
        network_access: network,
    })
}

fn same_policy(a: &SandboxPolicy, b: &SandboxPolicy) -> bool {
    match (a, b) {
        (SandboxPolicy::Preset(x), SandboxPolicy::Preset(y)) => x == y,
        _ => false,
    }
}

fn same_profile(a: &RunProfile, b: &RunProfile) -> bool {
    a.model == b.model
        && a.effort == b.effort
        && a.approval_policy == b.approval_policy
        && same_policy(&a.sandbox_policy, &b.sandbox_policy)
        && a.privileged_escalation_approved == b.privileged_escalation_approved
        && a.attachments == b.attachments
        && a.timeout_ms == b.timeout_ms
        && a.hooks == b.hooks
}

#[test]
fn session_config_defaults_are_explicit() {
    let cfg = SessionConfig::new("/work");
    assert_eq!(cfg.cwd, "/work");
    assert_eq!(cfg.model, None);
    assert_eq!(cfg.effort, ReasoningEffort::Medium);
    assert_eq!(cfg.approval_policy, ApprovalPolicy::Never);
    assert!(is_read_only(&cfg.sandbox_policy));
    assert_eq!(cfg.timeout_ms, 120_000);
    assert!(cfg.attachments.is_empty());
}

#[test]
fn run_profile_defaults_are_explicit() {
    let profile = RunProfile::new();
    assert_eq!(profile.model, None);
    assert_eq!(profile.effort, ReasoningEffort::Medium);
    assert_eq!(profile.approval_policy, ApprovalPolicy::Never);
    assert!(is_read_only(&profile.sandbox_policy));
    assert_eq!(profile.timeout_ms, 120_000);
    assert!(profile.attachments.is_empty());
}

fn sample_profile() -> RunProfile {
    RunProfile::new()
        .with_model("gpt-5-codex")
        .with_effort(ReasoningEffort::High)
        .with_approval_policy(ApprovalPolicy::OnRequest)
        .with_sandbox_policy(workspace_write(&["/work"], false))
        .with_timeout(33_000)
        .with_attachment(PromptAttachment::ImageUrl {
            url: "https://example.com/a.png".to_owned(),
        })
}

#[test]
fn session_config_from_profile_maps_all_fields() {
    let profile = sample_profile();
    let cfg = SessionConfig::from_profile("/work".to_owned(), sample_profile());
    assert_eq!(cfg.cwd, "/work");
    assert_eq!(cfg.model.as_deref(), Some("gpt-5-codex"));
    assert_eq!(cfg.effort, ReasoningEffort::High);
    assert_eq!(cfg.approval_policy, ApprovalPolicy::OnRequest);
    assert!(is_workspace_write(&cfg.sandbox_policy, &["/work"], false));
    assert_eq!(cfg.timeout_ms, 33_000);
    assert_eq!(
        cfg.attachments,
        vec![PromptAttachment::ImageUrl {
            url: "https://example.com/a.png".to_owned()
        }]
    );

    let restored = cfg.profile();
    assert!(same_profile(&restored, &profile));
}

#[test]
fn session_prompt_params_maps_config_and_prompt() {
    let cfg = SessionConfig::new("/work")
        .with_model("gpt-5-codex")
        .with_effort(ReasoningEffort::High)
        .with_approval_policy(ApprovalPolicy::OnRequest)
        .with_sandbox_policy(workspace_write(&["/work"], false))
        .with_timeout(33_000)
        .with_attachment(PromptAttachment::ImageUrl {
            url: "https://example.com/a.png".to_owned(),
        });

    let params = session_prompt_params(&cfg, "hello");
    assert_eq!(params.cwd, "/work");
    assert_eq!(params.prompt, "hello");
    assert_eq!(params.model.as_deref(), Some("gpt-5-codex"));
    assert_eq!(params.effort, Some(ReasoningEffort::High));
    assert_eq!(params.approval_policy, ApprovalPolicy::OnRequest);
    assert!(is_workspace_write(&params.sandbox_policy, &["/work"], false));
    assert_eq!(params.timeout_ms, 33_000);
    assert_eq!(
        params.attachments,
        vec![PromptAttachment::ImageUrl {
            url: "https://example.com/a.png".to_owned()
        }]
    );
}

#[test]
fn profile_to_prompt_params_maps_profile_and_input() {
    let profile = RunProfile::new()
        .with_model("gpt-5-codex")
        .with_effort(ReasoningEffort::Low)
        .with_approval_policy(ApprovalPolicy::OnFailure)
        .with_sandbox_policy(workspace_write(&["/tmp/work"], true))
        .with_timeout(15_000)
        .attach_path("README.md");

    let params = profile_to_prompt_params("/tmp/work".to_owned(), "hello", profile);
    assert_eq!(params.cwd, "/tmp/work");
    assert_eq!(params.prompt, "hello");
    assert_eq!(params.model.as_deref(), Some("gpt-5-codex"));
    assert_eq!(params.effort, Some(ReasoningEffort::Low));
    assert_eq!(params.approval_policy, ApprovalPolicy::OnFailure);
    assert!(is_workspace_write(&params.sandbox_policy, &["/tmp/work"], true));
    assert_eq!(params.timeout_ms, 15_000);
    assert_eq!(
        params.attachments,
        vec![PromptAttachment::AtPath {
            path: "README.md".to_owned(),
            placeholder: None
        }]
    );
}

#[test]
fn profile_attachment_builders_append_in_order() {
    let profile = RunProfile::new()
        .attach_path("a.md")
        .attach_path_with_placeholder("b.md", "B")
        .attach_image_url("https://example.com/i.png")
        .attach_local_image("/tmp/i.png")
        .attach_skill("lint", "/skills/lint");
    assert_eq!(
        profile.attachments,
        vec![
            PromptAttachment::AtPath { path: "a.md".to_owned(), placeholder: None },
            PromptAttachment::AtPath { path: "b.md".to_owned(), placeholder: Some("B".to_owned()) },
            PromptAttachment::ImageUrl { url: "https://example.com/i.png".to_owned() },
            PromptAttachment::LocalImage { path: "/tmp/i.png".to_owned() },
            PromptAttachment::Skill { name: "lint".to_owned(), path: "/skills/lint".to_owned() },
        ]
    );
}

#[test]
fn profile_hook_builders_and_escalation() {
    let profile = RunProfile::new()
        .with_pre_hook("pre-a".to_owned())
        .with_post_hook("post-a".to_owned())
        .allow_privileged_escalation();
    assert_eq!(profile.hooks.pre_hooks, vec!["pre-a".to_owned()]);
    assert_eq!(profile.hooks.post_hooks, vec!["post-a".to_owned()]);
    assert!(profile.privileged_escalation_approved);
    let replaced = profile.with_hooks(RuntimeHookConfig::new());
    assert!(!replaced.hooks.is_empty());
    assert_eq!(DEFAULT_RUN_TIMEOUT_MS, 120_000);
}

#[test]
fn session_thread_start_params_carries_session_defaults() {
    let cfg = SessionConfig::new("/work")
        .with_model("m1")
        .with_approval_policy(ApprovalPolicy::Untrusted)
        .allow_privileged_escalation();
    let p = session_thread_start_params(&cfg);
    assert_eq!(p.model.as_deref(), Some("m1"));
    assert_eq!(p.cwd.as_deref(), Some("/work"));
    assert_eq!(p.approval_policy, Some(ApprovalPolicy::Untrusted));
    assert!(matches!(p.sandbox_policy, Some(SandboxPolicy::Preset(SandboxPreset::ReadOnly))));
    assert!(p.privileged_escalation_approved);
}

#[test]
fn session_profile_round_trip_law_on_defaults() {
    let base = RunProfile::new().with_model("x").attach_path("f.txt");
    let cfg = SessionConfig::from_profile("/w".to_owned(), RunProfile::new().with_model("x").attach_path("f.txt"));
    assert!(same_profile(&cfg.profile(), &base));
}
