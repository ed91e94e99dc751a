//! Artifact documents, their metadata, edit patches and the errors of the
//! artifact domain.
use vstd::prelude::*;
use crate::api_types::ReasoningEffort;
use crate::errors::{RpcError, RuntimeError};
use crate::json::JsonValue;
use crate::text::{decimal, owned, push_str, u64_to_decimal};

verus! {

/// Metadata of an artifact.
#[derive(Clone, Debug, PartialEq, Eq)]
pub struct ArtifactMeta {
    pub title: String,
    pub format: String,
    pub revision: String,
    pub runtime_thread_id: Option<String>,
}

/// What a task does with an artifact.
#[derive(Clone, Copy, Debug, PartialEq, Eq, Structural)]
pub enum ArtifactTaskKind {
    DocGenerate,
    DocEdit,
    Passthrough,
}

/// One task on an artifact.
#[derive(Debug)]
pub struct ArtifactTaskSpec {
    pub artifact_id: String,
    pub kind: ArtifactTaskKind,
    pub user_goal: String,
    pub current_text: Option<String>,
    pub constraints: Vec<String>,
    pub examples: Vec<String>,
    pub model: Option<String>,
    pub effort: Option<ReasoningEffort>,
    pub summary: Option<String>,
    pub output_schema: JsonValue,
}

/// A line-based edit patch of a document at a known revision.
#[derive(Clone, Debug, PartialEq, Eq)]
pub struct DocPatch {
    pub format: String,
    pub expected_revision: String,
    pub edits: Vec<DocEdit>,
    pub notes: Option<String>,
}

/// Replace lines `start_line..end_line` (1-based, end exclusive) with
/// `replacement`.
#[derive(Clone, Debug, PartialEq, Eq)]
pub struct DocEdit {
    pub start_line: usize,
    pub end_line: usize,
    pub replacement: String,
}

/// Why a patch does not apply.
#[derive(Clone, Debug, PartialEq, Eq)]
pub enum PatchConflict {
    RevisionMismatch { expected: String, actual: String },
    InvalidRange { index: usize, start_line: usize, end_line: usize, line_count: usize },
    NotSorted { index: usize, prev_start: usize, start: usize },
    Overlap { index: usize, prev_end: usize, start: usize },
}

/// Text of a conflict.
pub open spec fn spec_conflict_message(c: PatchConflict) -> Seq<char> {
    match c {
        PatchConflict::RevisionMismatch { expected, actual } =>
            "expected revision mismatch: expected="@ + expected@ + " actual="@ + actual@,
        PatchConflict::InvalidRange { index, start_line, end_line, line_count } =>
            "invalid range at edit#"@ + decimal(index as nat) + ": start="@ + decimal(start_line as nat)
                + " end="@ + decimal(end_line as nat) + " line_count="@ + decimal(line_count as nat),
        PatchConflict::NotSorted { index, prev_start, start } =>
            "edits are not sorted at edit#"@ + decimal(index as nat) + ": prev_start="@ + decimal(prev_start as nat)
                + " start="@ + decimal(start as nat),
        PatchConflict::Overlap { index, prev_end, start } =>
            "edits overlap at edit#"@ + decimal(index as nat) + ": prev_end="@ + decimal(prev_end as nat)
                + " start="@ + decimal(start as nat),
    }
}

/// Appends the decimal rendering of `n`.
fn push_usize(s: &mut String, n: usize)
    ensures
        final(s)@ == old(s)@ + decimal(n as nat),
{
    let d = u64_to_decimal(n as u64);
    push_str(s, d.as_str());
}

impl PatchConflict {
    /// Text of the conflict.
    pub fn message(&self) -> (r: String)
        ensures
            r@ == spec_conflict_message(*self),
    {
        match self {
            PatchConflict::RevisionMismatch { expected, actual } => {
                let mut m = owned("expected revision mismatch: expected=");
                push_str(&mut m, expected.as_str());
                push_str(&mut m, " actual=");
                push_str(&mut m, actual.as_str());
                m
            },
            PatchConflict::InvalidRange { index, start_line, end_line, line_count } => {
                let mut m = owned("invalid range at edit#");
                push_usize(&mut m, *index);
                push_str(&mut m, ": start=");
                push_usize(&mut m, *start_line);
                push_str(&mut m, " end=");
                push_usize(&mut m, *end_line);
                push_str(&mut m, " line_count=");
                push_usize(&mut m, *line_count);
                m
            },
            PatchConflict::NotSorted { index, prev_start, start } => {
                let mut m = owned("edits are not sorted at edit#");
                push_usize(&mut m, *index);
                push_str(&mut m, ": prev_start=");
                push_usize(&mut m, *prev_start);
                push_str(&mut m, " start=");
                push_usize(&mut m, *start);
                m
            },
            PatchConflict::Overlap { index, prev_end, start } => {
                let mut m = owned("edits overlap at edit#");
                push_usize(&mut m, *index);
                push_str(&mut m, ": prev_end=");
                push_usize(&mut m, *prev_end);
                push_str(&mut m, " start=");
                push_usize(&mut m, *start);
                m
            },
        }
    }
}

/// Edits checked against a text.
#[derive(Clone, Debug, PartialEq, Eq)]
pub struct ValidatedPatch {
    pub edits: Vec<DocEdit>,
}

/// Record of one save.
#[derive(Clone, Debug, PartialEq, Eq)]
pub struct SaveMeta {
    pub task_kind: ArtifactTaskKind,
    pub thread_id: String,
    pub turn_id: Option<String>,
    pub previous_revision: Option<String>,
    pub next_revision: String,
}

/// Failure of an artifact store.
#[derive(Clone, Debug, PartialEq, Eq)]
pub enum StoreErr {
    NotFound(String),
    Conflict { expected: String, actual: String },
    Io(String),
    Serialize(String),
}

/// Storage of artifact texts and metadata.
pub trait ArtifactStore: Send + Sync {
    fn load_text(&self, artifact_id: &str) -> Result<String, StoreErr>;
    fn save_text(&self, artifact_id: &str, new_text: &str, meta: SaveMeta) -> Result<(), StoreErr>;
    fn get_meta(&self, artifact_id: &str) -> Result<ArtifactMeta, StoreErr>;
    fn set_meta(&self, artifact_id: &str, meta: ArtifactMeta) -> Result<(), StoreErr>;
}

/// A store of artifacts under a root directory, one directory each.
#[derive(Clone, Debug, PartialEq, Eq)]
pub struct FsArtifactStore {
    pub root: String,
}

/// Failure of an artifact task.
#[derive(Debug)]
pub enum DomainError {
    Conflict { expected: String, actual: String },
    IncompatibleContract { expected_major: u16, expected_minor: u16, actual_major: u16, actual_minor: u16 },
    Validation(String),
    Parse(String),
    Store(StoreErr),
    Rpc(RpcError),
    Runtime(RuntimeError),
}

impl DomainError {
    /// The domain error of a store error: store conflicts become domain
    /// conflicts, anything else stays a store error.
    pub fn from_store(value: StoreErr) -> (r: DomainError)
        ensures
            match value {
                StoreErr::Conflict { expected, actual } => r == (DomainError::Conflict { expected, actual }),
                other => r == DomainError::Store(other),
            },
    {
        match value {
            StoreErr::Conflict { expected, actual } => DomainError::Conflict { expected, actual },
            other => DomainError::Store(other),
        }
    }
}

/// An artifact opened on a runtime thread.
#[derive(Clone, Debug, PartialEq, Eq)]
pub struct ArtifactSession {
    pub artifact_id: String,
    pub thread_id: String,
    pub format: String,
    pub revision: String,
}

/// Result of an artifact task.
#[derive(Debug)]
pub enum ArtifactTaskResult {
    DocGenerate {
        artifact_id: String,
        thread_id: String,
        turn_id: Option<String>,
        title: String,
        format: String,
        revision: String,
        text: String,
    },
    DocEdit {
        artifact_id: String,
        thread_id: String,
        turn_id: Option<String>,
        format: String,
        revision: String,
        text: String,
        notes: Option<String>,
    },
    Passthrough {
        artifact_id: String,
        thread_id: String,
        turn_id: Option<String>,
        output: JsonValue,
    },
}

} // verus!
