//! One artifact task on an open session, as a state machine: the caller
//! performs each action (store reads and writes, the model turn, decoding
//! the turn's JSON output) and hands back what came of it.
use vstd::prelude::*;
use crate::artifact::task::{build_turn_prompt, plan_doc_edit, save_meta_for, spec_turn_prompt};
use crate::artifact::patch::{patch_valid_for, spec_apply_patch};
use crate::artifact::types::{
    ArtifactMeta, ArtifactSession, ArtifactTaskKind, ArtifactTaskResult, ArtifactTaskSpec, DocPatch, DomainError,
    SaveMeta, StoreErr,
};
use crate::digest::{compute_revision, spec_revision};
use crate::json::{str_views, JsonValue};
use crate::wire::clone_opt_string;

verus! {

/// The document a generate task's output describes.
#[derive(Debug)]
pub struct GeneratedDoc {
    pub format: String,
    pub title: String,
    pub text: String,
}

/// The new state of the document once the turn's output is checked.
#[derive(Debug)]
pub enum ArtifactChange {
    Generated { title: String, format: String, text: String, revision: String },
    Edited { format: String, text: String, revision: String, notes: Option<String> },
}

/// Where an artifact task stands.
#[derive(Debug)]
pub enum ArtifactTaskPhase {
    /// Waiting for the stored text.
    LoadingText,
    /// Waiting for the model turn.
    RunningTurn { persisted_text: String, persisted_revision: String },
    /// Waiting for the turn's output to be decoded.
    DecodingOutput { persisted_text: String, persisted_revision: String, turn_id: Option<String> },
    /// Waiting for the stored metadata.
    LoadingMeta { persisted_revision: String, turn_id: Option<String>, change: ArtifactChange },
    /// Waiting for the new text to be saved.
    SavingText { turn_id: Option<String>, change: ArtifactChange, meta: ArtifactMeta },
    /// Waiting for the new metadata to be stored.
    SettingMeta { turn_id: Option<String>, change: ArtifactChange },
    /// The task is over.
    Finished,
}

/// What the caller does next.
#[derive(Debug)]
pub enum ArtifactTaskAction {
    /// Read the stored text of the artifact.
    LoadText { artifact_id: String },
    /// Run a model turn with this prompt on the thread.
    RunTurn { thread_id: String, prompt: String },
    /// Decode the turn's output as a generated document.
    DecodeGenerated { output: JsonValue },
    /// Decode the turn's output as an edit patch.
    DecodePatch { output: JsonValue },
    /// Read the stored metadata of the artifact.
    GetMeta { artifact_id: String },
    /// Save the new text, recording the save.
    SaveText { artifact_id: String, text: String, meta: SaveMeta },
    /// Store the new metadata.
    SetMeta { artifact_id: String, meta: ArtifactMeta },
    /// The task ends with this result.
    Finish(Result<ArtifactTaskResult, DomainError>),
}

/// What came of the last action.
#[derive(Debug)]
pub enum ArtifactTaskEvent {
    TextLoaded(Result<String, DomainError>),
    /// The turn's id, when known, and its output.
    TurnRan(Result<(Option<String>, JsonValue), DomainError>),
    GeneratedDecoded(Result<GeneratedDoc, DomainError>),
    PatchDecoded(Result<DocPatch, DomainError>),
    MetaLoaded(Result<ArtifactMeta, DomainError>),
    TextSaved(Result<(), DomainError>),
    MetaSet(Result<(), DomainError>),
}

/// One task on an artifact open on a runtime thread.
#[derive(Debug)]
pub struct ArtifactTaskRun {
    pub spec: ArtifactTaskSpec,
    pub session: ArtifactSession,
    pub phase: ArtifactTaskPhase,
}

/// The text a task works from: a missing artifact reads as empty text.
pub open spec fn loaded_text(r: Result<String, DomainError>) -> Option<Seq<char>> {
    match r {
        Ok(t) => Some(t@),
        Err(DomainError::Store(StoreErr::NotFound(_))) => Some(Seq::empty()),
        Err(_) => None,
    }
}

/// The prompt of a task on stored text `text`: the task's own current
/// text as context when it has one, else the stored text.
pub open spec fn task_prompt(spec: ArtifactTaskSpec, session: ArtifactSession, text: Seq<char>) -> Seq<char> {
    spec_turn_prompt(spec.user_goal@, str_views(spec.constraints@), str_views(spec.examples@),
        session.format@, spec_revision(text),
        match spec.current_text { Some(c) => c@, None => text })
}

/// The text a change leaves.
pub open spec fn change_text(c: ArtifactChange) -> Seq<char> {
    match c {
        ArtifactChange::Generated { text, .. } => text@,
        ArtifactChange::Edited { text, .. } => text@,
    }
}

/// The revision a change leaves.
pub open spec fn change_revision(c: ArtifactChange) -> Seq<char> {
    match c {
        ArtifactChange::Generated { revision, .. } => revision@,
        ArtifactChange::Edited { revision, .. } => revision@,
    }
}

/// The kind of task a change comes from.
pub open spec fn change_kind(c: ArtifactChange) -> ArtifactTaskKind {
    match c {
        ArtifactChange::Generated { .. } => ArtifactTaskKind::DocGenerate,
        ArtifactChange::Edited { .. } => ArtifactTaskKind::DocEdit,
    }
}

/// `m` is `meta` after a change on thread `thread_id`: a generated
/// document sets title and format, an edit sets the patch's format; both
/// set the revision and the thread.
pub open spec fn meta_after(meta: ArtifactMeta, c: ArtifactChange, thread_id: Seq<char>, m: ArtifactMeta) -> bool {
    &&& m.revision@ == change_revision(c)
    &&& m.runtime_thread_id matches Some(t) && t@ == thread_id
    &&& match c {
        ArtifactChange::Generated { title, format, .. } => m.title@ == title@ && m.format@ == format@,
        ArtifactChange::Edited { format, .. } => m.title == meta.title && m.format@ == format@,
    }
}

/// `r` is the result of a finished change of task `spec` on `session`.
pub open spec fn change_result(spec: ArtifactTaskSpec, session: ArtifactSession, turn_id: Option<String>, c: ArtifactChange,
    r: ArtifactTaskResult) -> bool {
    match c {
        ArtifactChange::Generated { title, format, text, revision } =>
            r == (ArtifactTaskResult::DocGenerate {
                artifact_id: spec.artifact_id, thread_id: session.thread_id, turn_id, title, format, revision, text }),
        ArtifactChange::Edited { format, text, revision, notes } =>
            r == (ArtifactTaskResult::DocEdit {
                artifact_id: spec.artifact_id, thread_id: session.thread_id, turn_id, format, revision, text, notes }),
    }
}

/// A copy of metadata.
fn clone_meta(m: &ArtifactMeta) -> (r: ArtifactMeta)
    ensures
        r == *m,
{
    ArtifactMeta {
        title: m.title.clone(),
        format: m.format.clone(),
        revision: m.revision.clone(),
        runtime_thread_id: clone_opt_string(&m.runtime_thread_id),
    }
}

/// Ends a task.
fn finish(spec: ArtifactTaskSpec, session: ArtifactSession, result: Result<ArtifactTaskResult, DomainError>)
    -> (r: (ArtifactTaskRun, ArtifactTaskAction))
    ensures
        r.0.spec == spec,
        r.0.session == session,
        r.0.phase is Finished,
        r.1 == ArtifactTaskAction::Finish(result),
{
    (ArtifactTaskRun { spec, session, phase: ArtifactTaskPhase::Finished }, ArtifactTaskAction::Finish(result))
}

/// An event the phase does not expect ends the task.
pub open spec fn out_of_order_error(a: ArtifactTaskAction) -> bool {
    a matches ArtifactTaskAction::Finish(Err(DomainError::Validation(_)))
}

impl ArtifactTaskRun {
    /// Starts a task on an open session: the stored text is read first.
    pub fn start(spec: ArtifactTaskSpec, session: ArtifactSession) -> (r: (ArtifactTaskRun, ArtifactTaskAction))
        ensures
            r.0.spec == spec,
            r.0.session == session,
            r.0.phase is LoadingText,
            r.1 matches ArtifactTaskAction::LoadText { artifact_id } && artifact_id == spec.artifact_id,
    {
        let artifact_id = spec.artifact_id.clone();
        (ArtifactTaskRun { spec, session, phase: ArtifactTaskPhase::LoadingText }, ArtifactTaskAction::LoadText { artifact_id })
    }

    /// Takes in what came of the last action and says what to do next:
    /// - the stored text (empty when the artifact does not exist) gives the
    ///   prompt of the turn, which runs on the session's thread;
    /// - a passthrough task ends with the turn's output; a generate or edit
    ///   task has the output decoded;
    /// - a generated document gets the revision of its text; a patch is
    ///   checked against the stored text and applied;
    /// - then the metadata is read, the text saved over the stored
    ///   revision, and the metadata updated, and the task ends with the
    ///   new document;
    /// - any error ends the task with it; an event the phase does not
    ///   expect ends it with a validation error.
    pub fn step(self, event: ArtifactTaskEvent) -> (r: (ArtifactTaskRun, ArtifactTaskAction))
        ensures
            r.0.spec == self.spec,
            r.0.session == self.session,
            match (self.phase, event) {
                (ArtifactTaskPhase::LoadingText, ArtifactTaskEvent::TextLoaded(loaded)) => match loaded_text(loaded) {
                    Some(t) => {
                        &&& r.0.phase matches ArtifactTaskPhase::RunningTurn { persisted_text, persisted_revision }
                        &&& persisted_text@ == t
                        &&& persisted_revision@ == spec_revision(t)
                        &&& r.1 matches ArtifactTaskAction::RunTurn { thread_id, prompt }
                        &&& thread_id == self.session.thread_id
                        &&& prompt@ == task_prompt(self.spec, self.session, t)
                    },
                    None => r.0.phase is Finished && r.1 == ArtifactTaskAction::Finish(Err(loaded->Err_0)),
                },
                (ArtifactTaskPhase::RunningTurn { persisted_text, persisted_revision }, ArtifactTaskEvent::TurnRan(ran)) => match ran {
                    Err(e) => r.0.phase is Finished && r.1 == ArtifactTaskAction::Finish(Err(e)),
                    Ok((turn_id, output)) => match self.spec.kind {
                        ArtifactTaskKind::Passthrough => r.0.phase is Finished
                            && r.1 == ArtifactTaskAction::Finish(Ok(ArtifactTaskResult::Passthrough {
                                artifact_id: self.spec.artifact_id, thread_id: self.session.thread_id, turn_id, output })),
                        ArtifactTaskKind::DocGenerate => r.0.phase == (ArtifactTaskPhase::DecodingOutput {
                                persisted_text, persisted_revision, turn_id })
                            && r.1 == (ArtifactTaskAction::DecodeGenerated { output }),
                        ArtifactTaskKind::DocEdit => r.0.phase == (ArtifactTaskPhase::DecodingOutput {
                                persisted_text, persisted_revision, turn_id })
                            && r.1 == (ArtifactTaskAction::DecodePatch { output }),
                    },
                },
                (ArtifactTaskPhase::DecodingOutput { persisted_text, persisted_revision, turn_id },
                 ArtifactTaskEvent::GeneratedDecoded(decoded)) => match decoded {
                    Err(e) => r.0.phase is Finished && r.1 == ArtifactTaskAction::Finish(Err(e)),
                    Ok(doc) => {
                        &&& r.0.phase matches ArtifactTaskPhase::LoadingMeta { persisted_revision: pr, turn_id: tid, change }
                        &&& pr == persisted_revision
                        &&& tid == turn_id
                        &&& change matches ArtifactChange::Generated { title, format, text, revision }
                        &&& title == doc.title && format == doc.format && text == doc.text
                        &&& revision@ == spec_revision(doc.text@)
                        &&& r.1 matches ArtifactTaskAction::GetMeta { artifact_id } && artifact_id == self.spec.artifact_id
                    },
                },
                (ArtifactTaskPhase::DecodingOutput { persisted_text, persisted_revision, turn_id },
                 ArtifactTaskEvent::PatchDecoded(decoded)) => match decoded {
                    Err(e) => r.0.phase is Finished && r.1 == ArtifactTaskAction::Finish(Err(e)),
                    Ok(patch) => if spec_revision(persisted_text@) == patch.expected_revision@
                        && patch_valid_for(persisted_text@, patch.edits@) {
                        &&& r.0.phase matches ArtifactTaskPhase::LoadingMeta { persisted_revision: pr, turn_id: tid, change }
                        &&& pr == persisted_revision
                        &&& tid == turn_id
                        &&& change matches ArtifactChange::Edited { format, text, revision, notes }
                        &&& format == patch.format && notes == patch.notes
                        &&& text@ == spec_apply_patch(persisted_text@, patch.edits@)
                        &&& revision@ == spec_revision(text@)
                        &&& r.1 matches ArtifactTaskAction::GetMeta { artifact_id } && artifact_id == self.spec.artifact_id
                    } else {
                        &&& r.0.phase is Finished
                        &&& r.1 matches ArtifactTaskAction::Finish(Err(e))
                        &&& (e is Conflict || e is Validation)
                    },
                },
                (ArtifactTaskPhase::LoadingMeta { persisted_revision, turn_id, change }, ArtifactTaskEvent::MetaLoaded(loaded)) =>
                    match loaded {
                        Err(e) => r.0.phase is Finished && r.1 == ArtifactTaskAction::Finish(Err(e)),
                        Ok(meta) => {
                            &&& r.0.phase == (ArtifactTaskPhase::SavingText { turn_id, change, meta })
                            &&& r.1 matches ArtifactTaskAction::SaveText { artifact_id, text, meta: sm }
                            &&& artifact_id == self.spec.artifact_id
                            &&& text@ == change_text(change)
                            &&& sm.task_kind == change_kind(change)
                            &&& sm.thread_id@ == self.session.thread_id@
                            &&& sm.turn_id == turn_id
                            &&& sm.previous_revision matches Some(p) && p@ == persisted_revision@
                            &&& sm.next_revision@ == change_revision(change)
                        },
                    },
                (ArtifactTaskPhase::SavingText { turn_id, change, meta }, ArtifactTaskEvent::TextSaved(saved)) => match saved {
                    Err(e) => r.0.phase is Finished && r.1 == ArtifactTaskAction::Finish(Err(e)),
                    Ok(()) => {
                        &&& r.0.phase == (ArtifactTaskPhase::SettingMeta { turn_id, change })
                        &&& r.1 matches ArtifactTaskAction::SetMeta { artifact_id, meta: m }
                        &&& artifact_id == self.spec.artifact_id
                        &&& meta_after(meta, change, self.session.thread_id@, m)
                    },
                },
                (ArtifactTaskPhase::SettingMeta { turn_id, change }, ArtifactTaskEvent::MetaSet(set)) => match set {
                    Err(e) => r.0.phase is Finished && r.1 == ArtifactTaskAction::Finish(Err(e)),
                    Ok(()) => {
                        &&& r.0.phase is Finished
                        &&& r.1 matches ArtifactTaskAction::Finish(Ok(res))
                        &&& change_result(self.spec, self.session, turn_id, change, res)
                    },
                },
                (_, _) => r.0.phase is Finished && out_of_order_error(r.1),
            },
    {
        let ArtifactTaskRun { spec, session, phase } = self;
        match phase {
            ArtifactTaskPhase::LoadingText => match event {
                ArtifactTaskEvent::TextLoaded(loaded) => {
                    let text = match loaded {
                        Ok(t) => t,
                        Err(DomainError::Store(StoreErr::NotFound(_))) => String::new(),
                        Err(e) => return finish(spec, session, Err(e)),
                    };
                    let revision = compute_revision(text.as_str());
                    let prompt = match &spec.current_text {
                        Some(c) => build_turn_prompt(&spec, session.format.as_str(), revision.as_str(), c.as_str()),
                        None => build_turn_prompt(&spec, session.format.as_str(), revision.as_str(), text.as_str()),
                    };
                    let thread_id = session.thread_id.clone();
                    (ArtifactTaskRun { spec, session, phase: ArtifactTaskPhase::RunningTurn { persisted_text: text, persisted_revision: revision } },
                     ArtifactTaskAction::RunTurn { thread_id, prompt })
                },
                _ => out_of_order(spec, session),
            },
            ArtifactTaskPhase::RunningTurn { persisted_text, persisted_revision } => match event {
                ArtifactTaskEvent::TurnRan(ran) => match ran {
                    Err(e) => finish(spec, session, Err(e)),
                    Ok((turn_id, output)) => match spec.kind {
                        ArtifactTaskKind::Passthrough => {
                            let result = ArtifactTaskResult::Passthrough {
                                artifact_id: spec.artifact_id.clone(),
                                thread_id: session.thread_id.clone(),
                                turn_id,
                                output,
                            };
                            finish(spec, session, Ok(result))
                        },
                        ArtifactTaskKind::DocGenerate =>
                            (ArtifactTaskRun { spec, session, phase: ArtifactTaskPhase::DecodingOutput { persisted_text, persisted_revision, turn_id } },
                             ArtifactTaskAction::DecodeGenerated { output }),
                        ArtifactTaskKind::DocEdit =>
                            (ArtifactTaskRun { spec, session, phase: ArtifactTaskPhase::DecodingOutput { persisted_text, persisted_revision, turn_id } },
                             ArtifactTaskAction::DecodePatch { output }),
                    },
                },
                _ => out_of_order(spec, session),
            },
            ArtifactTaskPhase::DecodingOutput { persisted_text, persisted_revision, turn_id } => match event {
                ArtifactTaskEvent::GeneratedDecoded(decoded) => match decoded {
                    Err(e) => finish(spec, session, Err(e)),
                    Ok(doc) => {
                        let revision = compute_revision(doc.text.as_str());
                        let change = ArtifactChange::Generated { title: doc.title, format: doc.format, text: doc.text, revision };
                        let artifact_id = spec.artifact_id.clone();
                        (ArtifactTaskRun { spec, session, phase: ArtifactTaskPhase::LoadingMeta { persisted_revision, turn_id, change } },
                         ArtifactTaskAction::GetMeta { artifact_id })
                    },
                },
                ArtifactTaskEvent::PatchDecoded(decoded) => match decoded {
                    Err(e) => finish(spec, session, Err(e)),
                    Ok(patch) => match plan_doc_edit(persisted_text.as_str(), &patch) {
                        Err(e) => finish(spec, session, Err(e)),
                        Ok((text, revision)) => {
                            let change = ArtifactChange::Edited { format: patch.format, text, revision, notes: patch.notes };
                            let artifact_id = spec.artifact_id.clone();
                            (ArtifactTaskRun { spec, session, phase: ArtifactTaskPhase::LoadingMeta { persisted_revision, turn_id, change } },
                             ArtifactTaskAction::GetMeta { artifact_id })
                        },
                    },
                },
                _ => out_of_order(spec, session),
            },
            ArtifactTaskPhase::LoadingMeta { persisted_revision, turn_id, change } => match event {
                ArtifactTaskEvent::MetaLoaded(loaded) => match loaded {
                    Err(e) => finish(spec, session, Err(e)),
                    Ok(meta) => {
                        let (kind, text, next_revision) = match &change {
                            ArtifactChange::Generated { text, revision, .. } => (ArtifactTaskKind::DocGenerate, text.clone(), revision.as_str()),
                            ArtifactChange::Edited { text, revision, .. } => (ArtifactTaskKind::DocEdit, text.clone(), revision.as_str()),
                        };
                        let save = save_meta_for(kind, session.thread_id.as_str(), &turn_id, persisted_revision.as_str(), next_revision);
                        let artifact_id = spec.artifact_id.clone();
                        (ArtifactTaskRun { spec, session, phase: ArtifactTaskPhase::SavingText { turn_id, change, meta } },
                         ArtifactTaskAction::SaveText { artifact_id, text, meta: save })
                    },
                },
                _ => out_of_order(spec, session),
            },
            ArtifactTaskPhase::SavingText { turn_id, change, meta } => match event {
                ArtifactTaskEvent::TextSaved(saved) => match saved {
                    Err(e) => finish(spec, session, Err(e)),
                    Ok(()) => {
                        let mut m = clone_meta(&meta);
                        match &change {
                            ArtifactChange::Generated { title, format, revision, .. } => {
                                m.title = title.clone();
                                m.format = format.clone();
                                m.revision = revision.clone();
                            },
                            ArtifactChange::Edited { format, revision, .. } => {
                                m.format = format.clone();
                                m.revision = revision.clone();
                            },
                        }
                        m.runtime_thread_id = Some(session.thread_id.clone());
                        let artifact_id = spec.artifact_id.clone();
                        (ArtifactTaskRun { spec, session, phase: ArtifactTaskPhase::SettingMeta { turn_id, change } },
                         ArtifactTaskAction::SetMeta { artifact_id, meta: m })
                    },
                },
                _ => out_of_order(spec, session),
            },
            ArtifactTaskPhase::SettingMeta { turn_id, change } => match event {
                ArtifactTaskEvent::MetaSet(set) => match set {
                    Err(e) => finish(spec, session, Err(e)),
                    Ok(()) => {
                        let artifact_id = spec.artifact_id.clone();
                        let thread_id = session.thread_id.clone();
                        let result = match change {
                            ArtifactChange::Generated { title, format, text, revision } =>
                                ArtifactTaskResult::DocGenerate { artifact_id, thread_id, turn_id, title, format, revision, text },
                            ArtifactChange::Edited { format, text, revision, notes } =>
                                ArtifactTaskResult::DocEdit { artifact_id, thread_id, turn_id, format, revision, text, notes },
                        };
                        finish(spec, session, Ok(result))
                    },
                },
                _ => out_of_order(spec, session),
            },
            ArtifactTaskPhase::Finished => out_of_order(spec, session),
        }
    }
}

/// Ends a task that got an event its phase does not expect.
fn out_of_order(spec: ArtifactTaskSpec, session: ArtifactSession) -> (r: (ArtifactTaskRun, ArtifactTaskAction))
    ensures
        r.0.spec == spec,
        r.0.session == session,
        r.0.phase is Finished,
        out_of_order_error(r.1),
{
    (ArtifactTaskRun { spec, session, phase: ArtifactTaskPhase::Finished },
     ArtifactTaskAction::Finish(Err(DomainError::Validation(crate::text::owned("artifact task event out of order")))))
}

} // verus!
