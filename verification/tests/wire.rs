use std::str::FromStr;

use coclai::api_types::{
    ApprovalPolicy, ReasoningEffort, SandboxPolicy, SandboxPreset, ThreadItemType, ThreadListSortKey,
    DEFAULT_REASONING_EFFORT,
};
use coclai::errors::{PromptRunError, RpcError};
use coclai::json::JsonValue;
use coclai::wire::{
    build_prompt_inputs, check_attachment_presence, has_explicit_scope, input_item_to_wire,
    privileged_sandbox_gate, resolve_attachment_path, summarize_sandbox_policy, thread_resume_params_to_wire,
    validate_thread_start_security, validate_turn_start_security, SandboxSummary, thread_id_params, turn_id_params, thread_start_params_to_wire, turn_start_params_to_wire,
    validate_prompt_attachments, ByteRange, InputItem, PromptAttachment, PromptRunParams,
    TextElement, ThreadStartParams, TurnStartParams,
};

fn s(x: &str) -> JsonValue {
    JsonValue::String(x.to_owned())
}

fn obj(fields: Vec<(&str, JsonValue)>) -> JsonValue {
    JsonValue::Object(fields.into_iter().map(|(k, v)| (k.to_owned(), v)).collect())
}

fn at<'a>(v: &'a JsonValue, key: &str) -> &'a JsonValue {
    v.get(key).unwrap_or_else(|| panic!("missing key {key}"))
}

fn idx(v: &JsonValue, i: usize) -> &JsonValue {
    match v {
        JsonValue::Array(items) => &items[i],
        other => panic!("not an array: {other:?}"),
    }
}

fn text(v: &JsonValue) -> &str {
    v.as_str().expect("string value")
}

#[test]
fn maps_turn_start_params_to_wire_shape() {
    let params = TurnStartParams {
        input: vec![
            InputItem::Text { text: "hello".to_owned() },
            InputItem::LocalImage { path: "/tmp/a.png".to_owned() },
        ],
        cwd: Some("/tmp".to_owned()),
        approval_policy: Some(ApprovalPolicy::Never),
        sandbox_policy: Some(SandboxPolicy::Preset(SandboxPreset::WorkspaceWrite {
            writable_roots: vec!["/tmp".to_owned()],
            network_access: false,
        })),
        privileged_escalation_approved: true,
        model: Some("gpt-5".to_owned()),
        effort: Some(ReasoningEffort::High),
        summary: Some("brief".to_owned()),
        output_schema: Some(obj(vec![("type", s("object"))])),
    };

    let wire = turn_start_params_to_wire("thr_1", &params);
    assert_eq!(text(at(&wire, "threadId")), "thr_1");
    let input = at(&wire, "input");
    assert_eq!(text(at(idx(input, 0), "type")), "text");
    assert_eq!(text(at(idx(input, 0), "text")), "hello");
    assert_eq!(text(at(idx(input, 1), "type")), "localImage");
    assert_eq!(text(at(idx(input, 1), "path")), "/tmp/a.png");
    assert_eq!(text(at(&wire, "approvalPolicy")), "never");
    let sandbox = at(&wire, "sandboxPolicy");
    assert_eq!(text(at(sandbox, "type")), "workspaceWrite");
    assert_eq!(text(idx(at(sandbox, "writableRoots"), 0)), "/tmp");
    assert_eq!(at(sandbox, "networkAccess").as_bool(), Some(false));
    assert_eq!(text(at(at(&wire, "outputSchema"), "type")), "object");
}

#[test]
fn maps_text_with_elements_input_to_wire_shape() {
    let input = InputItem::TextWithElements {
        text: "check @README.md".to_owned(),
        text_elements: vec![TextElement {
            byte_range: ByteRange { start: 6, end: 16 },
            placeholder: Some("README".to_owned()),
        }],
    };
    let wire = input_item_to_wire(&input);
    assert_eq!(text(at(&wire, "type")), "text");
    assert_eq!(text(at(&wire, "text")), "check @README.md");
    let element = idx(at(&wire, "text_elements"), 0);
    assert_eq!(at(at(element, "byteRange"), "start").as_u64(), Some(6));
    assert_eq!(at(at(element, "byteRange"), "end").as_u64(), Some(16));
    assert_eq!(text(at(element, "placeholder")), "README");
}

#[test]
fn builds_prompt_input_with_at_path_attachment() {
    let input = build_prompt_inputs(
        "summarize",
        &vec![PromptAttachment::AtPath {
            path: "README.md".to_owned(),
            placeholder: None,
        }],
    );
    assert_eq!(input.len(), 1);
    match &input[0] {
        InputItem::TextWithElements { text, text_elements } => {
            assert_eq!(text, "summarize\n@README.md");
            assert_eq!(text_elements.len(), 1);
            assert_eq!(text_elements[0].byte_range.start, 10);
            assert_eq!(text_elements[0].byte_range.end, 20);
        }
        other => panic!("unexpected input variant: {other:?}"),
    }
}

#[test]
fn prompt_inputs_count_bytes_and_keep_other_attachments_in_order() {
    let input = build_prompt_inputs(
        "héllo\n",
        &vec![
            PromptAttachment::ImageUrl { url: "https://x/y.png".to_owned() },
            PromptAttachment::AtPath { path: "ü.md".to_owned(), placeholder: Some("u".to_owned()) },
            PromptAttachment::Skill { name: "k".to_owned(), path: "/s".to_owned() },
        ],
    );
    assert_eq!(input.len(), 3);
    match &input[0] {
        InputItem::TextWithElements { text, text_elements } => {
            assert_eq!(text, "héllo\n@ü.md");
            assert_eq!(text_elements[0].byte_range, ByteRange { start: 7, end: 13 });
            assert_eq!(text_elements[0].placeholder.as_deref(), Some("u"));
        }
        other => panic!("unexpected {other:?}"),
    }
    assert_eq!(input[1], InputItem::ImageUrl { url: "https://x/y.png".to_owned() });
    assert_eq!(input[2], InputItem::Skill { name: "k".to_owned(), path: "/s".to_owned() });
    let plain = build_prompt_inputs("just text", &vec![]);
    assert_eq!(plain, vec![InputItem::Text { text: "just text".to_owned() }]);
}

#[test]
fn parses_policy_and_effort_from_str() {
    assert_eq!(ApprovalPolicy::from_str("on-request").expect("parse approval"), ApprovalPolicy::OnRequest);
    assert_eq!(ReasoningEffort::from_str("xhigh").expect("parse effort"), ReasoningEffort::XHigh);
    assert_eq!(
        ThreadListSortKey::from_str("updated_at").expect("parse thread list sort key"),
        ThreadListSortKey::UpdatedAt
    );
    assert!(ApprovalPolicy::from_str("always").is_err());
    assert!(ReasoningEffort::from_str("ultra").is_err());
    assert!(ThreadListSortKey::from_str("latest").is_err());

    let known_item_type = ThreadItemType::from_wire("agentMessage");
    assert_eq!(known_item_type, ThreadItemType::AgentMessage);
    let unknown_item_type = ThreadItemType::from_wire("futureType");
    assert_eq!(unknown_item_type, ThreadItemType::Unknown("futureType".to_owned()));
    assert_eq!(unknown_item_type.as_wire(), "futureType");
}

#[test]
fn parse_errors_quote_the_refused_text() {
    assert_eq!(ApprovalPolicy::from_wire("always"), Err("unknown approval policy: always".to_owned()));
    assert_eq!(ApprovalPolicy::Never.as_wire(), "never");
    assert_eq!(ReasoningEffort::XHigh.as_wire(), "xhigh");
}

#[test]
fn validate_prompt_attachments_rejects_missing_path() {
    let err = validate_prompt_attachments(
        "/tmp",
        &vec![PromptAttachment::AtPath {
            path: "definitely_missing_file_12345.txt".to_owned(),
            placeholder: None,
        }],
    )
    .expect_err("must fail");
    match err {
        PromptRunError::AttachmentNotFound(path) => {
            assert!(path.ends_with("/tmp/definitely_missing_file_12345.txt"));
        }
        other => panic!("unexpected error: {other:?}"),
    }
}

#[test]
fn attachment_presence_reports_the_first_missing_path() {
    let atts = vec![
        PromptAttachment::ImageUrl { url: "u".to_owned() },
        PromptAttachment::LocalImage { path: "a.png".to_owned() },
        PromptAttachment::Skill { name: "n".to_owned(), path: "/abs/skill".to_owned() },
    ];
    assert!(check_attachment_presence("/w", &atts, &vec![false, true, true]).is_ok());
    match check_attachment_presence("/w", &atts, &vec![true, false, false]) {
        Err(PromptRunError::AttachmentNotFound(p)) => assert_eq!(p, "/w/a.png"),
        other => panic!("unexpected {other:?}"),
    }
    match check_attachment_presence("/w", &atts, &vec![true, true, false]) {
        Err(PromptRunError::AttachmentNotFound(p)) => assert_eq!(p, "/abs/skill"),
        other => panic!("unexpected {other:?}"),
    }
    assert_eq!(resolve_attachment_path("/w/", "x"), "/w/x");
    assert_eq!(resolve_attachment_path("", "x"), "x");
}

#[test]
fn explicit_scope_needs_cwd_or_roots() {
    assert!(has_explicit_scope(Some("/w"), false));
    assert!(!has_explicit_scope(Some("  "), false));
    assert!(has_explicit_scope(None, true));
    assert!(!has_explicit_scope(None, false));
}

#[test]
fn thread_start_params_wire_lists_present_overrides() {
    let params = ThreadStartParams {
        model: Some("gpt-5".to_owned()),
        cwd: Some("/work".to_owned()),
        approval_policy: Some(ApprovalPolicy::OnRequest),
        sandbox_policy: Some(SandboxPolicy::Preset(SandboxPreset::ReadOnly)),
        privileged_escalation_approved: false,
    };
    let wire = thread_start_params_to_wire(&params);
    assert_eq!(text(at(&wire, "model")), "gpt-5");
    assert_eq!(text(at(&wire, "cwd")), "/work");
    assert_eq!(text(at(&wire, "approvalPolicy")), "on-request");
    assert_eq!(text(at(at(&wire, "sandboxPolicy"), "type")), "readOnly");
    let empty = thread_start_params_to_wire(&ThreadStartParams::default());
    assert!(matches!(empty, JsonValue::Object(ref f) if f.is_empty()));
}

#[test]
fn prompt_run_params_defaults_are_explicit() {
    let params = PromptRunParams::new("/work", "hello");
    assert_eq!(params.cwd, "/work");
    assert_eq!(params.prompt, "hello");
    assert_eq!(params.effort, Some(DEFAULT_REASONING_EFFORT));
    assert_eq!(params.approval_policy, ApprovalPolicy::Never);
    assert!(matches!(params.sandbox_policy, SandboxPolicy::Preset(SandboxPreset::ReadOnly)));
    assert!(!params.privileged_escalation_approved);
    assert_eq!(params.timeout_ms, 120_000);
    assert!(params.attachments.is_empty());
}

#[test]
fn prompt_run_params_builder_overrides_defaults() {
    let params = PromptRunParams::new("/work", "hello")
        .with_model("gpt-5-codex")
        .with_effort(ReasoningEffort::High)
        .with_approval_policy(ApprovalPolicy::OnRequest)
        .with_sandbox_policy(SandboxPolicy::Preset(SandboxPreset::WorkspaceWrite {
            writable_roots: vec!["/work".to_owned()],
            network_access: false,
        }))
        .allow_privileged_escalation()
        .attach_path("README.md")
        .attach_path_with_placeholder("Docs/CORE_API.md", "core-doc")
        .attach_image_url("https://example.com/a.png")
        .attach_local_image("/tmp/a.png")
        .attach_skill("checks", "/tmp/skill")
        .with_timeout(30_000);

    assert_eq!(params.cwd, "/work");
    assert_eq!(params.prompt, "hello");
    assert_eq!(params.model.as_deref(), Some("gpt-5-codex"));
    assert_eq!(params.effort, Some(ReasoningEffort::High));
    assert_eq!(params.approval_policy, ApprovalPolicy::OnRequest);
    match &params.sandbox_policy {
        SandboxPolicy::Preset(p) => assert_eq!(
            *p,
            SandboxPreset::WorkspaceWrite { writable_roots: vec!["/work".to_owned()], network_access: false }
        ),
        other => panic!("unexpected {other:?}"),
    }
    assert!(params.privileged_escalation_approved);
    assert_eq!(params.timeout_ms, 30_000);
    assert_eq!(params.attachments.len(), 5);
    assert!(matches!(
        params.attachments[0],
        PromptAttachment::AtPath { ref path, placeholder: None } if path == "README.md"
    ));
    assert!(matches!(
        params.attachments[1],
        PromptAttachment::AtPath { ref path, placeholder: Some(ref placeholder) }
            if path == "Docs/CORE_API.md" && placeholder == "core-doc"
    ));
    assert!(matches!(
        params.attachments[2],
        PromptAttachment::ImageUrl { ref url } if url == "https://example.com/a.png"
    ));
    assert!(matches!(
        params.attachments[3],
        PromptAttachment::LocalImage { ref path } if path == "/tmp/a.png"
    ));
    assert!(matches!(
        params.attachments[4],
        PromptAttachment::Skill { ref name, ref path } if name == "checks" && path == "/tmp/skill"
    ));
}

#[test]
fn privileged_gate_passes_unprivileged_policies() {
    assert!(privileged_sandbox_gate(false, false, false, None, None).is_ok());
}

fn assert_invalid(r: Result<(), RpcError>, m: &str) {
    match r {
        Err(RpcError::InvalidRequest(got)) => assert_eq!(got, m),
        other => panic!("unexpected {other:?}"),
    }
}

#[test]
fn privileged_gate_requires_escalation_approval() {
    assert_invalid(
        privileged_sandbox_gate(true, true, false, Some(ApprovalPolicy::OnRequest), Some("/tmp")),
        "privileged sandbox requires explicit escalation approval",
    );
}

#[test]
fn privileged_gate_requires_non_never_approval() {
    let expected = "privileged sandbox requires non-never approval policy";
    assert_invalid(privileged_sandbox_gate(true, true, true, None, Some("/tmp")), expected);
    assert_invalid(privileged_sandbox_gate(true, true, true, Some(ApprovalPolicy::Never), Some("/tmp")), expected);
}

#[test]
fn privileged_gate_requires_explicit_scope() {
    assert_invalid(
        privileged_sandbox_gate(true, false, true, Some(ApprovalPolicy::OnFailure), Some("  ")),
        "privileged sandbox requires explicit scope via cwd or writable roots",
    );
    assert!(privileged_sandbox_gate(true, false, true, Some(ApprovalPolicy::OnFailure), Some("/work")).is_ok());
    assert!(privileged_sandbox_gate(true, true, true, Some(ApprovalPolicy::Untrusted), None).is_ok());
}

#[test]
fn sandbox_summaries_mark_full_access_and_external_sandboxes() {
    let s = summarize_sandbox_policy(&SandboxPolicy::Preset(SandboxPreset::DangerFullAccess)).unwrap();
    assert_eq!(s, SandboxSummary { privileged: true, has_non_empty_writable_roots: false });
    let s = summarize_sandbox_policy(&SandboxPolicy::Preset(SandboxPreset::ReadOnly)).unwrap();
    assert!(!s.privileged);
    let s = summarize_sandbox_policy(&SandboxPolicy::Preset(SandboxPreset::WorkspaceWrite {
        writable_roots: vec!["/w".to_owned()],
        network_access: false,
    }))
    .unwrap();
    assert_eq!(s, SandboxSummary { privileged: false, has_non_empty_writable_roots: true });
    let raw = JsonValue::Object(vec![("type".to_owned(), JsonValue::String("externalSandbox".to_owned()))]);
    assert!(summarize_sandbox_policy(&SandboxPolicy::Raw(raw)).unwrap().privileged);
    assert_eq!(
        summarize_sandbox_policy(&SandboxPolicy::Raw(JsonValue::Null)),
        Err("sandboxPolicy must be an object".to_owned())
    );
}

#[test]
fn thread_start_security_applies_the_gate() {
    let mut p = ThreadStartParams::default();
    assert!(validate_thread_start_security(&p).is_ok());
    p.sandbox_policy = Some(SandboxPolicy::Preset(SandboxPreset::DangerFullAccess));
    assert_invalid(validate_thread_start_security(&p), "privileged sandbox requires explicit escalation approval");
    p.privileged_escalation_approved = true;
    p.approval_policy = Some(ApprovalPolicy::OnRequest);
    assert_invalid(
        validate_thread_start_security(&p),
        "privileged sandbox requires explicit scope via cwd or writable roots",
    );
    p.cwd = Some("/work".to_owned());
    assert!(validate_thread_start_security(&p).is_ok());
    let mut t = TurnStartParams::default();
    t.sandbox_policy = Some(SandboxPolicy::Raw(JsonValue::Null));
    assert_invalid(validate_turn_start_security(&t), "sandboxPolicy must be an object");
}

#[test]
fn thread_resume_params_carry_id_then_overrides() {
    let p = ThreadStartParams::default();
    match thread_resume_params_to_wire("thr_1", &p) {
        JsonValue::Object(f) => {
            assert_eq!(f.len(), 1);
            assert_eq!(f[0].0, "threadId");
            assert!(matches!(f[0].1, JsonValue::String(ref t) if t == "thr_1"));
        }
        _ => panic!("not an object"),
    }
    let mut p = ThreadStartParams::default();
    p.model = Some("m".to_owned());
    match thread_resume_params_to_wire("thr_1", &p) {
        JsonValue::Object(f) => {
            assert_eq!(f.len(), 2);
            assert_eq!(f[1].0, "overrides");
            match &f[1].1 {
                JsonValue::Object(o) => {
                    assert_eq!(o.len(), 1);
                    assert_eq!(o[0].0, "model");
                    assert!(matches!(o[0].1, JsonValue::String(ref m) if m == "m"));
                }
                _ => panic!("overrides not an object"),
            }
        }
        _ => panic!("not an object"),
    }
}

#[test]
fn thread_and_turn_id_params_name_their_ids() {
    match thread_id_params("thr") {
        JsonValue::Object(f) => {
            assert_eq!(f.len(), 1);
            assert_eq!(f[0].0, "threadId");
            assert!(matches!(f[0].1, JsonValue::String(ref t) if t == "thr"));
        }
        _ => panic!("not an object"),
    }
    match turn_id_params("thr", "tu") {
        JsonValue::Object(f) => {
            assert_eq!(f.len(), 2);
            assert_eq!(f[1].0, "turnId");
            assert!(matches!(f[1].1, JsonValue::String(ref t) if t == "tu"));
        }
        _ => panic!("not an object"),
    }
}
