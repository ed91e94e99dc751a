//! The artifact session manager's decisions: plugin contract
//! compatibility, and opening an artifact on a runtime thread.
use vstd::prelude::*;
use crate::artifact::types::{ArtifactMeta, ArtifactSession, DomainError};
use crate::hooks::PluginContractVersion;
use crate::text::{owned, push_str, str_eq};

verus! {

/// The contract version expected and the one an adapter implements.
#[derive(Clone, Copy, Debug, PartialEq, Eq, Structural)]
pub struct ContractMismatch {
    pub expected: PluginContractVersion,
    pub actual: PluginContractVersion,
}

/// The mismatch between this runtime's contract (1.0) and `actual`, when
/// their majors differ.
pub fn detect_contract_mismatch(actual: PluginContractVersion) -> (r: Option<ContractMismatch>)
    ensures
        actual.major == 1 ==> r is None,
        actual.major != 1 ==> r == Some(ContractMismatch {
            expected: PluginContractVersion { major: 1, minor: 0 },
            actual,
        }),
{
    let expected = PluginContractVersion::current();
    if expected.is_compatible_with(actual) {
        None
    } else {
        Some(ContractMismatch { expected, actual })
    }
}

/// Runs artifact tasks through an adapter whose plugin contract version is
/// checked once, when the manager is made.
#[derive(Clone, Debug, PartialEq, Eq)]
pub struct ArtifactSessionManager {
    contract_mismatch: Option<ContractMismatch>,
}

impl ArtifactSessionManager {
    /// A manager for an adapter implementing `adapter_contract_version`.
    pub fn new_with_adapter(adapter_contract_version: PluginContractVersion) -> (m: Self)
        ensures
            m.mismatch() == (if adapter_contract_version.major == 1 { None } else {
                Some(ContractMismatch { expected: PluginContractVersion { major: 1, minor: 0 }, actual: adapter_contract_version })
            }),
    {
        ArtifactSessionManager { contract_mismatch: detect_contract_mismatch(adapter_contract_version) }
    }

    /// The contract mismatch found when the manager was made.
    pub closed spec fn mismatch(&self) -> Option<ContractMismatch> {
        self.contract_mismatch
    }

    /// Refuses every operation when the adapter's contract is incompatible.
    pub fn ensure_contract_compatible(&self) -> (r: Result<(), DomainError>)
        ensures
            match self.mismatch() {
                None => r is Ok,
                Some(m) => r matches Err(DomainError::IncompatibleContract { expected_major, expected_minor, actual_major, actual_minor })
                    && expected_major == m.expected.major && expected_minor == m.expected.minor
                    && actual_major == m.actual.major && actual_minor == m.actual.minor,
            },
    {
        match self.contract_mismatch {
            Some(mismatch) => Err(DomainError::IncompatibleContract {
                expected_major: mismatch.expected.major,
                expected_minor: mismatch.expected.minor,
                actual_major: mismatch.actual.major,
                actual_minor: mismatch.actual.minor,
            }),
            None => Ok(()),
        }
    }
}

/// How an artifact gets its runtime thread.
#[derive(Debug, PartialEq, Eq)]
pub enum ThreadOpenPlan {
    /// Resume the thread the artifact already has.
    Resume(String),
    /// Start a new thread.
    Start,
}

/// An artifact with a thread resumes it; one without starts a new one.
pub fn open_thread_plan(meta: &ArtifactMeta) -> (r: ThreadOpenPlan)
    ensures
        match meta.runtime_thread_id {
            Some(t) => r == ThreadOpenPlan::Resume(t),
            None => r == ThreadOpenPlan::Start,
        },
{
    match &meta.runtime_thread_id {
        Some(t) => ThreadOpenPlan::Resume(t.clone()),
        None => ThreadOpenPlan::Start,
    }
}

/// The metadata to store and the session to return once an artifact is
/// open on `thread_id`.
pub fn session_after_open(artifact_id: &str, meta: ArtifactMeta, thread_id: String) -> (r: (ArtifactMeta, ArtifactSession))
    ensures
        r.0.title == meta.title,
        r.0.format == meta.format,
        r.0.revision == meta.revision,
        r.0.runtime_thread_id == Some(thread_id),
        r.1.artifact_id@ == artifact_id@,
        r.1.thread_id == thread_id,
        r.1.format == meta.format,
        r.1.revision == meta.revision,
{
    let mut meta = meta;
    meta.runtime_thread_id = Some(thread_id.clone());
    let session = ArtifactSession {
        artifact_id: owned(artifact_id),
        thread_id,
        format: meta.format.clone(),
        revision: meta.revision.clone(),
    };
    (meta, session)
}

/// A resumed thread must be the one asked for.
pub fn check_resumed_thread(requested: &str, resumed: String) -> (r: Result<String, DomainError>)
    ensures
        resumed@ == requested@ ==> r == Ok::<String, DomainError>(resumed),
        resumed@ != requested@ ==> (r matches Err(DomainError::Parse(m))
            && m@ == "thread/resume returned mismatched thread id: requested="@ + requested@ + " actual="@ + resumed@),
{
    if str_eq(resumed.as_str(), requested) {
        return Ok(resumed);
    }
    let mut m = owned("thread/resume returned mismatched thread id: requested=");
    push_str(&mut m, requested);
    push_str(&mut m, " actual=");
    push_str(&mut m, resumed.as_str());
    Err(DomainError::Parse(m))
}

} // verus!
