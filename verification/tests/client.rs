use coclai::client::{
    ensure_session_open_for_prompt, ensure_session_open_for_rpc, is_version_at_least,
    parse_initialize_user_agent, pick_schema_dir, resolve_default_schema_dir, schema_dir_decision,
    validate_schema_dir, ClientConfig, ClientError, CompatibilityGuard, SemVerTriplet,
    DEFAULT_SCHEMA_RELATIVE_DIR,
};
use coclai::errors::{PromptRunError, RpcError};

#[test]
fn tests_config_builder_sets_fields() {
    let cfg = ClientConfig::new()
        .with_cli_bin("/opt/homebrew/bin/cli")
        .with_schema_dir("/tmp/schema");
    assert_eq!(cfg.cli_bin, "/opt/homebrew/bin/cli");
    assert_eq!(cfg.schema_dir, Some("/tmp/schema".to_owned()));
    assert_eq!(
        cfg.compatibility_guard,
        CompatibilityGuard {
            require_initialize_user_agent: true,
            min_codex_version: Some(SemVerTriplet::new(0, 104, 0)),
        }
    );
}

#[test]
fn tests_disable_compatibility_guard_overrides_defaults() {
    let cfg = ClientConfig::new().without_compatibility_guard();
    assert_eq!(
        cfg.compatibility_guard,
        CompatibilityGuard {
            require_initialize_user_agent: false,
            min_codex_version: None,
        }
    );
}

#[test]
fn tests_parse_initialize_user_agent_extracts_product_and_semver() {
    let parsed = parse_initialize_user_agent("Codex Desktop/0.104.0 (Mac OS 26.3.0; arm64)");
    assert_eq!(parsed, Some(("Codex Desktop".to_owned(), SemVerTriplet::new(0, 104, 0))));
}

#[test]
fn tests_parse_initialize_user_agent_rejects_invalid_format() {
    assert_eq!(parse_initialize_user_agent("Codex Desktop"), None);
    assert_eq!(parse_initialize_user_agent("Codex Desktop/x.y.z"), None);
}

#[test]
fn user_agent_edge_cases() {
    assert_eq!(parse_initialize_user_agent("codex/1.2.3"), Some(("codex".to_owned(), SemVerTriplet::new(1, 2, 3))));
    assert_eq!(parse_initialize_user_agent("/1.2.3"), None);
    assert_eq!(parse_initialize_user_agent("codex/1.2"), None);
    assert_eq!(parse_initialize_user_agent("codex/1.2.3.4"), None);
    assert_eq!(parse_initialize_user_agent("codex/99999999999.0.0"), None);
}

#[test]
fn tests_session_open_guards_return_error_when_closed() {
    let prompt_err = ensure_session_open_for_prompt(true).expect_err("must fail");
    assert!(matches!(prompt_err, PromptRunError::Rpc(RpcError::InvalidRequest(_))));
    let rpc_err = ensure_session_open_for_rpc(true).expect_err("must fail");
    assert!(matches!(rpc_err, RpcError::InvalidRequest(_)));
    assert!(ensure_session_open_for_prompt(false).is_ok());
    assert!(ensure_session_open_for_rpc(false).is_ok());
}

#[test]
fn resolve_schema_dir_rejects_missing_path() {
    let err = validate_schema_dir("/not/found").expect_err("must fail");
    assert!(matches!(err, ClientError::SchemaDirNotFound(_)));
}

#[test]
fn schema_dir_decision_covers_each_case() {
    assert!(matches!(schema_dir_decision("/x", false, false), Err(ClientError::SchemaDirNotFound(p)) if p == "/x"));
    assert!(matches!(schema_dir_decision("/x", true, false), Err(ClientError::SchemaDirNotDirectory(p)) if p == "/x"));
    assert_eq!(schema_dir_decision("/x", true, true).expect("ok"), "/x");
}

#[test]
fn validate_schema_dir_accepts_existing_directory_and_refuses_files() {
    assert_eq!(validate_schema_dir("/tmp").expect("tmp exists"), "/tmp");
    assert!(matches!(validate_schema_dir("/etc/hostname"), Err(ClientError::SchemaDirNotDirectory(_)) | Err(ClientError::SchemaDirNotFound(_))));
}

#[test]
fn default_schema_dir_falls_back_to_cwd_default_when_nothing_exists() {
    let err = resolve_default_schema_dir("/definitely/missing/cwd", "/definitely/missing/pkg").expect_err("nothing exists");
    match err {
        ClientError::SchemaDirNotFound(p) => {
            assert_eq!(p, format!("/definitely/missing/cwd/{DEFAULT_SCHEMA_RELATIVE_DIR}"));
        }
        other => panic!("unexpected {other:?}"),
    }
    let ok = resolve_default_schema_dir("/definitely/missing/cwd", "/tmp").expect("package default exists");
    assert_eq!(ok, "/tmp");
}

#[test]
fn schema_dir_candidate_prefers_explicit_then_env() {
    assert_eq!(pick_schema_dir(Some("/a"), Some("/b")), Some("/a".to_owned()));
    assert_eq!(pick_schema_dir(None, Some("  /b  ")), Some("/b".to_owned()));
    assert_eq!(pick_schema_dir(None, Some("   ")), None);
    assert_eq!(pick_schema_dir(None, None), None);
}

#[test]
fn version_order_is_lexicographic_by_part() {
    assert!(is_version_at_least(SemVerTriplet::new(0, 104, 0), SemVerTriplet::new(0, 104, 0)));
    assert!(is_version_at_least(SemVerTriplet::new(1, 0, 0), SemVerTriplet::new(0, 104, 9)));
    assert!(!is_version_at_least(SemVerTriplet::new(0, 103, 9), SemVerTriplet::new(0, 104, 0)));
}

#[test]
fn config_builders_keep_other_fields() {
    let cfg = ClientConfig::new()
        .with_pre_hook("pre".to_owned())
        .with_post_hook("post".to_owned())
        .with_compatibility_guard(CompatibilityGuard { require_initialize_user_agent: false, min_codex_version: Some(SemVerTriplet::new(1, 0, 0)) });
    assert_eq!(cfg.cli_bin, "codex");
    assert_eq!(cfg.hooks.pre_hooks, vec!["pre".to_owned()]);
    assert_eq!(cfg.hooks.post_hooks, vec!["post".to_owned()]);
    assert_eq!(cfg.compatibility_guard.min_codex_version, Some(SemVerTriplet::new(1, 0, 0)));
}

#[test]
fn config_builder_sets_fields() {
    let cfg = ClientConfig::new().with_cli_bin("/opt/homebrew/bin/cli");
    assert_eq!(cfg.cli_bin, "/opt/homebrew/bin/cli");
    assert_eq!(
        cfg.compatibility_guard,
        CompatibilityGuard {
            require_initialize_user_agent: true,
            min_codex_version: Some(SemVerTriplet::new(0, 104, 0)),
        }
    );
}

#[test]
fn disable_compatibility_guard_overrides_defaults() {
    let cfg = ClientConfig::new().without_compatibility_guard();
    assert_eq!(
        cfg.compatibility_guard,
        CompatibilityGuard {
            require_initialize_user_agent: false,
            min_codex_version: None,
        }
    );
}

#[test]
fn parse_initialize_user_agent_extracts_product_and_semver() {
    let parsed = parse_initialize_user_agent("Codex Desktop/0.104.0 (Mac OS 26.3.0; arm64)");
    assert_eq!(parsed, Some(("Codex Desktop".to_owned(), SemVerTriplet::new(0, 104, 0))));
}

#[test]
fn parse_initialize_user_agent_rejects_invalid_format() {
    assert_eq!(parse_initialize_user_agent("Codex Desktop"), None);
    assert_eq!(parse_initialize_user_agent("Codex Desktop/x.y.z"), None);
}

#[test]
fn session_open_guards_return_error_when_closed() {
    let prompt_err = ensure_session_open_for_prompt(true).expect_err("must fail");
    assert!(matches!(prompt_err, PromptRunError::Rpc(RpcError::InvalidRequest(_))));
    let rpc_err = ensure_session_open_for_rpc(true).expect_err("must fail");
    assert!(matches!(rpc_err, RpcError::InvalidRequest(_)));
}
