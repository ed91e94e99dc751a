use coclai::api_types::ReasoningEffort;
use coclai::artifact::manager::{
    check_resumed_thread, detect_contract_mismatch, open_thread_plan, session_after_open,
    ArtifactSessionManager, ThreadOpenPlan,
};
use coclai::artifact::patch::{apply_doc_patch, concat_lines, map_patch_conflict, split_lines, validate_doc_patch};
use coclai::artifact::store::{
    artifact_key, artifact_key_from_digest, check_meta_revision, check_save_revision, lock_is_stale, parse_lock_created_unix_ms,
};
use coclai::artifact::task::{
    build_turn_prompt, build_turn_start_params, extract_fenced_json, has_required_keys,
    loaded_text_or_empty, meta_from_store_results, meta_or_default, plan_doc_edit, save_meta_for,
};
use coclai::artifact::output::{accept_keyed, keyed_output_source, output_text_plan, pick_parsed_output};
use coclai::artifact::types::{
    ArtifactMeta, ArtifactTaskKind, ArtifactTaskSpec, DocEdit, DocPatch, DomainError, FsArtifactStore,
    PatchConflict, StoreErr, ValidatedPatch,
};
use coclai::digest::{compute_revision, revision_from_digest};
use coclai::hooks::PluginContractVersion;
use coclai::json::JsonValue;
use sha2::Digest;

fn s(x: &str) -> JsonValue {
    JsonValue::String(x.to_owned())
}

fn obj(fields: Vec<(&str, JsonValue)>) -> JsonValue {
    JsonValue::Object(fields.into_iter().map(|(k, v)| (k.to_owned(), v)).collect())
}

fn str_at<'a>(v: &'a JsonValue, key: &str) -> Option<&'a str> {
    v.get(key).and_then(|x| x.as_str())
}

fn spec(kind: ArtifactTaskKind) -> ArtifactTaskSpec {
    ArtifactTaskSpec {
        artifact_id: "doc:prompt".to_owned(),
        kind,
        user_goal: "goal".to_owned(),
        current_text: None,
        constraints: vec![],
        examples: vec![],
        model: None,
        effort: None,
        summary: None,
        output_schema: obj(vec![("type", s("object"))]),
    }
}

fn edit(start_line: usize, end_line: usize, replacement: &str) -> DocEdit {
    DocEdit { start_line, end_line, replacement: replacement.to_owned() }
}

fn patch_for(before: &str, edits: Vec<DocEdit>) -> DocPatch {
    DocPatch {
        format: "markdown".to_owned(),
        expected_revision: compute_revision(before),
        edits,
        notes: None,
    }
}

#[test]
fn build_prompt_has_required_blocks() {
    let mut task = spec(ArtifactTaskKind::Passthrough);
    task.constraints = vec!["c1".to_owned()];
    task.examples = vec!["ex1".to_owned()];
    let prompt = build_turn_prompt(&task, "markdown", "sha256:rev", "hello\n");
    assert!(prompt.contains("ROLE:\n"));
    assert!(prompt.contains("GOAL:\n"));
    assert!(prompt.contains("CONSTRAINTS:\n"));
    assert!(prompt.contains("CONTEXT:\n"));
    assert!(prompt.contains("REVISION: sha256:rev"));
    assert!(prompt.contains("CURRENT_TEXT_BEGIN\nhello\nCURRENT_TEXT_END"));
}

#[test]
fn build_prompt_is_exact_for_a_small_task() {
    let task = spec(ArtifactTaskKind::DocEdit);
    let prompt = build_turn_prompt(&task, "md", "r1", "x");
    assert_eq!(
        prompt,
        "ROLE:\nYou are a documentation/rules engine. Do NOT use tools. Output JSON matching the schema only.\n\n\
GOAL:\ngoal\n\nCONSTRAINTS:\n- none\n\nCONTEXT:\nFORMAT: md\nREVISION: r1\n\
CURRENT_TEXT_BEGIN\nx\nCURRENT_TEXT_END\n"
    );
}

#[test]
fn validate_and_apply_replace() {
    let before = "a\nb\nc\n";
    let patch = patch_for(before, vec![edit(2, 3, "B\n")]);
    let validated = validate_doc_patch(before, &patch).expect("valid patch");
    let after = apply_doc_patch(before, &validated);
    assert_eq!(after, "a\nB\nc\n");
}

#[test]
fn validate_insert_head_and_append() {
    let before = "line1\nline2\n";
    let patch = patch_for(before, vec![edit(1, 1, "head\n"), edit(3, 3, "tail\n")]);
    let validated = validate_doc_patch(before, &patch).expect("valid patch");
    let after = apply_doc_patch(before, &validated);
    assert_eq!(after, "head\nline1\nline2\ntail\n");
}

#[test]
fn detect_revision_conflict() {
    let before = "a\n";
    let patch = DocPatch {
        format: "markdown".to_owned(),
        expected_revision: "sha256:deadbeef".to_owned(),
        edits: vec![],
        notes: None,
    };
    let err = validate_doc_patch(before, &patch).expect_err("must fail");
    assert!(matches!(err, PatchConflict::RevisionMismatch { .. }));
}

#[test]
fn detect_overlap() {
    let before = "a\nb\nc\n";
    let patch = patch_for(before, vec![edit(1, 3, "x\n"), edit(2, 3, "y\n")]);
    let err = validate_doc_patch(before, &patch).expect_err("must fail");
    assert!(matches!(err, PatchConflict::Overlap { .. }));
}

#[test]
fn detect_invalid_range() {
    let before = "a\n";
    let patch = patch_for(before, vec![edit(2, 4, "x\n")]);
    let err = validate_doc_patch(before, &patch).expect_err("must fail");
    assert!(matches!(err, PatchConflict::InvalidRange { .. }));
}

#[test]
fn detect_unsorted_edits_and_report_messages() {
    let before = "a\nb\nc\n";
    let patch = patch_for(before, vec![edit(3, 3, "x\n"), edit(1, 1, "y\n")]);
    let err = validate_doc_patch(before, &patch).expect_err("must fail");
    assert_eq!(err, PatchConflict::NotSorted { index: 1, prev_start: 3, start: 1 });
    assert_eq!(err.message(), "edits are not sorted at edit#1: prev_start=3 start=1");
    let bad = patch_for(before, vec![edit(2, 9, "x\n")]);
    let err = validate_doc_patch(before, &bad).expect_err("must fail");
    assert_eq!(
        err,
        PatchConflict::InvalidRange { index: 0, start_line: 2, end_line: 9, line_count: 3 }
    );
    assert!(matches!(map_patch_conflict(err), DomainError::Validation(_)));
    let stale = DocPatch { expected_revision: "r0".to_owned(), ..patch_for(before, vec![]) };
    match map_patch_conflict(validate_doc_patch(before, &stale).expect_err("must fail")) {
        DomainError::Conflict { expected, actual } => {
            assert_eq!(expected, "r0");
            assert_eq!(actual, compute_revision(before));
        }
        other => panic!("unexpected {other:?}"),
    }
}

#[test]
fn empty_patch_leaves_text_unchanged() {
    let before = "keep\nme";
    let validated = validate_doc_patch(before, &patch_for(before, vec![])).expect("valid");
    assert_eq!(apply_doc_patch(before, &validated), before);
}

#[test]
fn split_and_concat_lines_round_trip() {
    let text = "a\nb\n\nc";
    let lines = split_lines(text);
    assert_eq!(lines, vec!["a\n".to_owned(), "b\n".to_owned(), "\n".to_owned(), "c".to_owned()]);
    assert_eq!(concat_lines(&lines), text);
    assert!(split_lines("").is_empty());
}

#[test]
fn artifact_key_is_stable() {
    let a = artifact_key("doc:123");
    let b = artifact_key("doc:123");
    let c = artifact_key("doc/123");
    assert_eq!(a, b);
    assert_ne!(a, c);
}

#[test]
fn artifact_key_is_sanitized_id_and_digest_prefix() {
    let digest = hex::encode(sha2::Sha256::digest(b"doc:123"));
    assert_eq!(artifact_key("doc:123"), format!("doc_123_{}", &digest[..12]));
    let empty_digest = hex::encode(sha2::Sha256::digest(b""));
    assert_eq!(artifact_key(""), format!("artifact_{}", &empty_digest[..12]));
}

#[test]
fn compute_revision_is_prefixed_sha256_hex() {
    assert_eq!(
        compute_revision("abc"),
        "sha256:ba7816bf8f01cfea414140de5dae2223b00361a396177a9cb410ff61f20015ad"
    );
}

#[test]
fn store_revision_checks_refuse_stale_expectations() {
    let text = "v2\n";
    assert_eq!(check_save_revision(text, None), Ok(()));
    assert_eq!(check_save_revision(text, Some(&compute_revision(text))), Ok(()));
    assert_eq!(
        check_save_revision(text, Some("sha256:old")),
        Err(StoreErr::Conflict { expected: "sha256:old".to_owned(), actual: compute_revision(text) })
    );
    let meta = ArtifactMeta {
        title: "x".to_owned(),
        format: "markdown".to_owned(),
        revision: "sha256:deadbeef".to_owned(),
        runtime_thread_id: None,
    };
    assert!(matches!(check_meta_revision("body\n", &meta), Err(StoreErr::Conflict { .. })));
    let good = ArtifactMeta { revision: compute_revision("body\n"), ..meta };
    assert_eq!(check_meta_revision("body\n", &good), Ok(()));
}

#[test]
fn lock_files_are_parsed_and_aged() {
    assert_eq!(parse_lock_created_unix_ms(" 42:1700 \n"), Some(1700));
    assert_eq!(parse_lock_created_unix_ms("nocolon"), None);
    assert_eq!(parse_lock_created_unix_ms("1:x"), None);
    assert!(lock_is_stale(40_000, Some("0:1\n"), None));
    assert!(!lock_is_stale(10_000, Some("0:1\n"), None));
    assert!(lock_is_stale(10_000, None, Some(30_000)));
    assert!(!lock_is_stale(10_000, Some("garbage"), Some(29_999)));
}

#[test]
fn fs_store_paths_live_under_the_artifact_directory() {
    let store = FsArtifactStore::new("/data");
    let dir = store.artifact_dir("doc:1");
    assert_eq!(dir, format!("/data/{}", artifact_key("doc:1")));
    assert_eq!(store.text_path("doc:1"), format!("{dir}/text.txt"));
    assert_eq!(store.meta_path("doc:1"), format!("{dir}/meta.json"));
    assert_eq!(store.lock_path("doc:1"), format!("{dir}/.artifact.lock"));
}

#[test]
fn build_turn_start_params_uses_fixed_safe_policy() {
    let mut task = spec(ArtifactTaskKind::Passthrough);
    task.artifact_id = "doc:unsafe".to_owned();
    task.model = Some("m".to_owned());
    task.effort = Some(ReasoningEffort::High);
    task.summary = Some("verbose".to_owned());
    let params = build_turn_start_params("thr_1", "prompt", &task);
    assert_eq!(str_at(&params, "approvalPolicy"), Some("never"));
    assert_eq!(str_at(params.get("sandboxPolicy").expect("sandbox"), "type"), Some("readOnly"));
    assert_eq!(str_at(&params, "model"), Some("m"));
    assert_eq!(str_at(&params, "effort"), Some("high"));
    assert_eq!(str_at(&params, "summary"), Some("verbose"));
}

#[test]
fn build_turn_start_params_defaults_effort_to_medium() {
    let mut task = spec(ArtifactTaskKind::Passthrough);
    task.artifact_id = "doc:default-effort".to_owned();
    let params = build_turn_start_params("thr_1", "prompt", &task);
    assert_eq!(str_at(&params, "effort"), Some("medium"));
}

#[test]
fn fenced_json_and_required_keys() {
    assert_eq!(extract_fenced_json("```json\n{\"a\":1}\n```").as_deref(), Some("{\"a\":1}"));
    assert_eq!(extract_fenced_json("{\"a\":1}"), None);
    let v = obj(vec![("title", s("t")), ("text", s("x"))]);
    assert!(has_required_keys(&v, &vec!["title", "text"]));
    assert!(!has_required_keys(&v, &vec!["format"]));
    assert!(!has_required_keys(&s("x"), &vec![]));
}

#[test]
fn missing_text_and_meta_fall_back_to_defaults() {
    assert_eq!(loaded_text_or_empty(Err(StoreErr::NotFound("x".to_owned()))), Ok(String::new()));
    assert_eq!(
        loaded_text_or_empty(Err(StoreErr::Io("disk".to_owned()))),
        Err(StoreErr::Io("disk".to_owned()))
    );
    let meta = meta_or_default("doc:9", "r9".to_owned(), Err(StoreErr::NotFound("m".to_owned()))).expect("default");
    assert_eq!(
        meta,
        ArtifactMeta {
            title: "doc:9".to_owned(),
            format: "markdown".to_owned(),
            revision: "r9".to_owned(),
            runtime_thread_id: None
        }
    );
}

#[test]
fn doc_edit_plan_applies_a_checked_patch() {
    let before = "a\nb\n";
    let (text, rev) = plan_doc_edit(before, &patch_for(before, vec![edit(2, 3, "B\n")])).expect("plan");
    assert_eq!(text, "a\nB\n");
    assert_eq!(rev, compute_revision("a\nB\n"));
    let meta = save_meta_for(ArtifactTaskKind::DocEdit, "thr", &Some("turn".to_owned()), "r0", &rev);
    assert_eq!(meta.previous_revision.as_deref(), Some("r0"));
    assert_eq!(meta.next_revision, rev);
}

#[test]
fn contract_and_thread_decisions() {
    assert!(detect_contract_mismatch(PluginContractVersion::current()).is_none());
    assert!(detect_contract_mismatch(PluginContractVersion::new(2, 0)).is_some());
    let manager = ArtifactSessionManager::new_with_adapter(PluginContractVersion::new(9, 0));
    assert!(matches!(manager.ensure_contract_compatible(), Err(DomainError::IncompatibleContract { .. })));
    let meta = ArtifactMeta {
        title: "t".to_owned(),
        format: "markdown".to_owned(),
        revision: "r".to_owned(),
        runtime_thread_id: Some("thr_1".to_owned()),
    };
    assert!(matches!(open_thread_plan(&meta), ThreadOpenPlan::Resume(ref t) if t == "thr_1"));
    let (meta2, session) = session_after_open("doc:1", meta, "thr_2".to_owned());
    assert_eq!(meta2.runtime_thread_id.as_deref(), Some("thr_2"));
    assert_eq!(session.thread_id, "thr_2");
    assert!(check_resumed_thread("thr_2", "thr_2".to_owned()).is_ok());
    assert!(check_resumed_thread("thr_2", "thr_3".to_owned()).is_err());
}

#[test]
fn keys_and_revisions_follow_their_digests() {
    assert_eq!(revision_from_digest(&[0xab, 0x01, 0xff]), "sha256:ab01ff");
    let digest = [0x0f, 0xa0, 0x12, 0x34, 0x56, 0x78, 0x9a];
    assert_eq!(artifact_key_from_digest("doc/x y", &digest), "doc_x_y_0fa012345678");
    assert_eq!(artifact_key_from_digest("", &digest), "artifact_0fa012345678");
}

#[test]
fn apply_doc_patch_applies_in_range_edits_given_out_of_order() {
    let before = "a\nb\nc\n";
    let validated = ValidatedPatch {
        edits: vec![
            DocEdit { start_line: 3, end_line: 4, replacement: "C\n".to_owned() },
            DocEdit { start_line: 1, end_line: 2, replacement: "A\n".to_owned() },
        ],
    };
    assert_eq!(apply_doc_patch(before, &validated), "A\nb\nC\n");
}

#[test]
fn meta_from_store_results_uses_the_loaded_text_revision() {
    let stored = ArtifactMeta {
        title: "T".to_owned(),
        format: "md".to_owned(),
        revision: "old".to_owned(),
        runtime_thread_id: Some("thr".to_owned()),
    };
    let m = meta_from_store_results("doc:1", Ok("abc".to_owned()), Ok(stored)).expect("meta");
    assert_eq!(m.revision, compute_revision("abc"));
    assert_eq!(m.title, "T");
    assert_eq!(m.runtime_thread_id, Some("thr".to_owned()));
    let m = meta_from_store_results(
        "doc:2",
        Err(StoreErr::NotFound("t".to_owned())),
        Err(StoreErr::NotFound("m".to_owned())),
    )
    .expect("default");
    assert_eq!(m.revision, compute_revision(""));
    assert_eq!(m.title, "doc:2");
    assert_eq!(m.format, "markdown");
    assert!(matches!(
        meta_from_store_results("doc:3", Err(StoreErr::Io("disk".to_owned())), Ok(m)),
        Err(StoreErr::Io(ref w)) if w == "disk"
    ));
    assert!(matches!(
        meta_from_store_results("doc:4", Ok("x".to_owned()), Err(StoreErr::Io("meta".to_owned()))),
        Err(StoreErr::Io(ref w)) if w == "meta"
    ));
}

#[test]
fn output_text_plan_trims_and_finds_fenced_blocks() {
    assert!(matches!(output_text_plan("  \n "), Err(DomainError::Parse(ref m)) if m == "turn completed without structured output"));
    let (t, f) = output_text_plan("  ```json\n{\"a\":1}\n```  ").expect("plan");
    assert_eq!(t, "```json\n{\"a\":1}\n```");
    assert_eq!(f, Some("{\"a\":1}".to_owned()));
    let (t, f) = output_text_plan(" {} ").expect("plan");
    assert_eq!(t, "{}");
    assert_eq!(f, None);
    assert!(matches!(pick_parsed_output("zz", None, None), Err(DomainError::Parse(ref m)) if m == "turn output is not valid JSON: zz"));
    assert!(matches!(pick_parsed_output("zz", None, Some(JsonValue::Null)), Ok(JsonValue::Null)));
    assert!(matches!(pick_parsed_output("zz", Some(JsonValue::Bool(true)), Some(JsonValue::Null)), Ok(JsonValue::Bool(true))));
}

#[test]
fn keyed_output_prefers_the_result_then_its_output() {
    let whole = JsonValue::Object(vec![("a".to_owned(), JsonValue::Null)]);
    assert!(keyed_output_source(&whole, &vec!["a"]).is_none());
    let nested = JsonValue::Object(vec![("output".to_owned(), whole)]);
    assert!(matches!(keyed_output_source(&nested, &vec!["a"]), Some(Some(JsonValue::Object(_)))));
    assert!(matches!(keyed_output_source(&JsonValue::Null, &vec!["a"]), Some(None)));
    let inner = JsonValue::Object(vec![("a".to_owned(), JsonValue::Null)]);
    assert!(matches!(accept_keyed(Ok(inner), &vec!["a"]), Some(Ok(_))));
    assert!(accept_keyed(Ok(JsonValue::Null), &vec!["a"]).is_none());
    assert!(matches!(accept_keyed(Err(DomainError::Parse("p".to_owned())), &vec!["a"]), Some(Err(DomainError::Parse(_)))));
}
