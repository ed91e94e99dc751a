use coclai::artifact::output::{
    direct_output, output_candidate, DirectOutput, ScanEvent, ScanOutput, ScanStep, TurnOutputScan,
};
use coclai::artifact::run::{ArtifactTaskAction, ArtifactTaskEvent, ArtifactTaskRun, GeneratedDoc};
use coclai::artifact::types::{
    ArtifactMeta, ArtifactSession, ArtifactTaskKind, ArtifactTaskResult, ArtifactTaskSpec, DocEdit, DocPatch,
    DomainError, StoreErr,
};
use coclai::digest::compute_revision;
use coclai::errors::RuntimeError;
use coclai::events::{Direction, Envelope, MsgKind};
use coclai::json::JsonValue;

fn s(x: &str) -> JsonValue {
    JsonValue::String(x.to_owned())
}

fn obj(fields: Vec<(&str, JsonValue)>) -> JsonValue {
    JsonValue::Object(fields.into_iter().map(|(k, v)| (k.to_owned(), v)).collect())
}

fn spec(kind: ArtifactTaskKind) -> ArtifactTaskSpec {
    ArtifactTaskSpec {
        artifact_id: "doc:1".to_owned(),
        kind,
        user_goal: "goal".to_owned(),
        current_text: None,
        constraints: vec![],
        examples: vec![],
        model: None,
        effort: None,
        summary: None,
        output_schema: obj(vec![]),
    }
}

fn session() -> ArtifactSession {
    ArtifactSession {
        artifact_id: "doc:1".to_owned(),
        thread_id: "thr".to_owned(),
        format: "markdown".to_owned(),
        revision: "r".to_owned(),
    }
}

fn meta() -> ArtifactMeta {
    ArtifactMeta { title: "Old".to_owned(), format: "markdown".to_owned(), revision: "r".to_owned(), runtime_thread_id: None }
}

fn event(method: &str, turn: &str, params: JsonValue) -> Envelope {
    Envelope {
        seq: 1,
        ts_millis: 0,
        direction: Direction::Inbound,
        kind: MsgKind::Notification,
        rpc_id: None,
        method: Some(method.to_owned()),
        thread_id: Some("thr".to_owned()),
        turn_id: Some(turn.to_owned()),
        item_id: None,
        json: obj(vec![("method", s(method)), ("params", params)]),
    }
}

#[test]
fn generate_task_saves_over_the_read_revision_and_updates_meta() {
    let (run, action) = ArtifactTaskRun::start(spec(ArtifactTaskKind::DocGenerate), session());
    assert!(matches!(action, ArtifactTaskAction::LoadText { ref artifact_id } if artifact_id == "doc:1"));
    let (run, action) = run.step(ArtifactTaskEvent::TextLoaded(Err(DomainError::Store(StoreErr::NotFound("doc:1".to_owned())))));
    match &action {
        ArtifactTaskAction::RunTurn { thread_id, prompt } => {
            assert_eq!(thread_id, "thr");
            assert!(prompt.contains(&format!("REVISION: {}", compute_revision(""))));
        }
        other => panic!("unexpected {other:?}"),
    }
    let (run, action) = run.step(ArtifactTaskEvent::TurnRan(Ok((Some("turn".to_owned()), obj(vec![])))));
    assert!(matches!(action, ArtifactTaskAction::DecodeGenerated { .. }));
    let doc = GeneratedDoc { format: "md".to_owned(), title: "T".to_owned(), text: "hello\n".to_owned() };
    let (run, action) = run.step(ArtifactTaskEvent::GeneratedDecoded(Ok(doc)));
    assert!(matches!(action, ArtifactTaskAction::GetMeta { .. }));
    let (run, action) = run.step(ArtifactTaskEvent::MetaLoaded(Ok(meta())));
    match &action {
        ArtifactTaskAction::SaveText { text, meta, .. } => {
            assert_eq!(text, "hello\n");
            assert_eq!(meta.task_kind, ArtifactTaskKind::DocGenerate);
            assert_eq!(meta.previous_revision.as_deref(), Some(compute_revision("").as_str()));
            assert_eq!(meta.next_revision, compute_revision("hello\n"));
            assert_eq!(meta.turn_id.as_deref(), Some("turn"));
        }
        other => panic!("unexpected {other:?}"),
    }
    let (run, action) = run.step(ArtifactTaskEvent::TextSaved(Ok(())));
    match &action {
        ArtifactTaskAction::SetMeta { meta, .. } => {
            assert_eq!(meta.title, "T");
            assert_eq!(meta.format, "md");
            assert_eq!(meta.revision, compute_revision("hello\n"));
            assert_eq!(meta.runtime_thread_id.as_deref(), Some("thr"));
        }
        other => panic!("unexpected {other:?}"),
    }
    let (_, action) = run.step(ArtifactTaskEvent::MetaSet(Ok(())));
    match action {
        ArtifactTaskAction::Finish(Ok(ArtifactTaskResult::DocGenerate { title, text, revision, .. })) => {
            assert_eq!(title, "T");
            assert_eq!(text, "hello\n");
            assert_eq!(revision, compute_revision("hello\n"));
        }
        other => panic!("unexpected {other:?}"),
    }
}

#[test]
fn edit_task_applies_the_patch_or_reports_the_conflict() {
    let before = "a\nb\n";
    let (run, _) = ArtifactTaskRun::start(spec(ArtifactTaskKind::DocEdit), session());
    let (run, _) = run.step(ArtifactTaskEvent::TextLoaded(Ok(before.to_owned())));
    let (run, action) = run.step(ArtifactTaskEvent::TurnRan(Ok((None, obj(vec![])))));
    assert!(matches!(action, ArtifactTaskAction::DecodePatch { .. }));
    let patch = DocPatch {
        format: "markdown".to_owned(),
        expected_revision: compute_revision(before),
        edits: vec![DocEdit { start_line: 1, end_line: 2, replacement: "A\n".to_owned() }],
        notes: Some("n".to_owned()),
    };
    let (run, _) = run.step(ArtifactTaskEvent::PatchDecoded(Ok(patch)));
    let (_, action) = run.step(ArtifactTaskEvent::MetaLoaded(Ok(meta())));
    assert!(matches!(action, ArtifactTaskAction::SaveText { ref text, .. } if text == "A\nb\n"));

    let (run, _) = ArtifactTaskRun::start(spec(ArtifactTaskKind::DocEdit), session());
    let (run, _) = run.step(ArtifactTaskEvent::TextLoaded(Ok(before.to_owned())));
    let (run, _) = run.step(ArtifactTaskEvent::TurnRan(Ok((None, obj(vec![])))));
    let stale = DocPatch { format: "m".to_owned(), expected_revision: "sha256:old".to_owned(), edits: vec![], notes: None };
    let (_, action) = run.step(ArtifactTaskEvent::PatchDecoded(Ok(stale)));
    assert!(matches!(action, ArtifactTaskAction::Finish(Err(DomainError::Conflict { .. }))));
}

#[test]
fn passthrough_task_returns_the_output_and_errors_end_tasks() {
    let (run, _) = ArtifactTaskRun::start(spec(ArtifactTaskKind::Passthrough), session());
    let (run, _) = run.step(ArtifactTaskEvent::TextLoaded(Ok(String::new())));
    let (_, action) = run.step(ArtifactTaskEvent::TurnRan(Ok((Some("u".to_owned()), s("out")))));
    assert!(matches!(action, ArtifactTaskAction::Finish(Ok(ArtifactTaskResult::Passthrough { .. }))));
    let (run, _) = ArtifactTaskRun::start(spec(ArtifactTaskKind::Passthrough), session());
    let (_, action) = run.step(ArtifactTaskEvent::TextLoaded(Err(DomainError::Store(StoreErr::Io("disk".to_owned())))));
    assert!(matches!(action, ArtifactTaskAction::Finish(Err(DomainError::Store(StoreErr::Io(_))))));
    let (run, _) = ArtifactTaskRun::start(spec(ArtifactTaskKind::Passthrough), session());
    let (_, action) = run.step(ArtifactTaskEvent::MetaSet(Ok(())));
    assert!(matches!(action, ArtifactTaskAction::Finish(Err(DomainError::Validation(_)))));
}

#[test]
fn output_candidates_are_found_in_params_and_results() {
    let p = obj(vec![("item", obj(vec![("output", s("{}"))]))]);
    assert!(matches!(output_candidate(&p), Some(JsonValue::String(_))));
    assert!(output_candidate(&obj(vec![])).is_none());
    assert_eq!(direct_output(&obj(vec![("output", s("x"))])), DirectOutput::Member);
    assert_eq!(direct_output(&s("{}")), DirectOutput::Bare);
    assert_eq!(direct_output(&obj(vec![("title", s("t"))])), DirectOutput::Whole);
    assert_eq!(direct_output(&obj(vec![("turn", obj(vec![]))])), DirectOutput::Absent);
}

#[test]
fn scan_collects_the_first_output_until_completion() {
    let (mut scan, step) = TurnOutputScan::start("thr", "turn", 10);
    assert!(matches!(step, ScanStep::Continue));
    assert!(matches!(scan.receive(&event("item/started", "other", obj(vec![])), None), ScanStep::Continue));
    assert_eq!(scan.budget, 10);
    assert!(matches!(scan.receive(&event("item/updated", "turn", obj(vec![])), Some(Ok(s("first")))), ScanStep::Continue));
    assert!(matches!(scan.receive(&event("item/updated", "turn", obj(vec![])), Some(Ok(s("second")))), ScanStep::Continue));
    match scan.receive(&event("turn/completed", "turn", obj(vec![])), None) {
        ScanStep::Done(Ok(ScanOutput::FromEvent(JsonValue::String(v)))) => assert_eq!(v, "first"),
        other => panic!("unexpected {other:?}"),
    }
}

#[test]
fn scan_ends_on_failure_budget_and_stream_problems() {
    let (mut scan, _) = TurnOutputScan::start("thr", "turn", 10);
    match scan.receive(&event("turn/failed", "turn", obj(vec![])), None) {
        ScanStep::Done(Err(DomainError::Validation(m))) => assert_eq!(m, "turn failed while collecting output: turn_id=turn"),
        other => panic!("unexpected {other:?}"),
    }
    let (mut scan, _) = TurnOutputScan::start("thr", "turn", 1);
    match scan.receive(&event("item/updated", "turn", obj(vec![])), None) {
        ScanStep::Done(Err(DomainError::Parse(m))) => assert_eq!(m, "turn output scan exceeded event budget: turn_id=turn"),
        other => panic!("unexpected {other:?}"),
    }
    let (_, step) = TurnOutputScan::start("thr", "turn", 0);
    assert!(matches!(step, ScanStep::Done(Err(DomainError::Parse(_)))));
    let (scan, _) = TurnOutputScan::start("thr", "turn", 3);
    assert!(matches!(scan.on_stream(ScanEvent::Lagged), ScanStep::Continue));
    assert!(matches!(scan.on_stream(ScanEvent::TimedOut), ScanStep::Done(Err(DomainError::Runtime(RuntimeError::Timeout)))));
    match scan.on_stream(ScanEvent::Closed("channel closed".to_owned())) {
        ScanStep::Done(Err(DomainError::Runtime(RuntimeError::Internal(m)))) => {
            assert_eq!(m, "live stream closed while waiting turn output: channel closed")
        }
        other => panic!("unexpected {other:?}"),
    }
    let (mut scan, _) = TurnOutputScan::start("thr", "turn", 3);
    let bad = Some(Err(DomainError::Parse("bad".to_owned())));
    assert!(matches!(scan.receive(&event("item/updated", "turn", obj(vec![])), bad), ScanStep::Done(Err(DomainError::Parse(_)))));
}

#[test]
fn scan_falls_back_to_assistant_text() {
    let (mut scan, _) = TurnOutputScan::start("thr", "turn", 5);
    let _ = scan.receive(&event("item/agentMessage/delta", "turn", obj(vec![("delta", s("{\"a\":1}"))])), None);
    match scan.receive(&event("turn/completed", "turn", obj(vec![])), None) {
        ScanStep::Done(Ok(ScanOutput::FromText(t))) => assert_eq!(t, "{\"a\":1}"),
        other => panic!("unexpected {other:?}"),
    }
}
