//! Policy enums and thread/turn parameter types with their wire names.
use vstd::prelude::*;
use crate::json::{clone_json, json_same, non_blank_str, spec_as_str, spec_get, spec_non_blank_str, str_views, JsonValue};
use crate::text::{owned, push_str, str_eq};

verus! {

/// When the server must ask before acting.
#[derive(Clone, Copy, Debug, PartialEq, Eq, Structural)]
pub enum ApprovalPolicy {
    Untrusted,
    OnFailure,
    OnRequest,
    Never,
}

/// Wire name of an approval policy.
pub open spec fn spec_approval_wire(p: ApprovalPolicy) -> Seq<char> {
    match p {
        ApprovalPolicy::Untrusted => "untrusted"@,
        ApprovalPolicy::OnFailure => "on-failure"@,
        ApprovalPolicy::OnRequest => "on-request"@,
        ApprovalPolicy::Never => "never"@,
    }
}

/// The approval policy a wire name names, if any.
pub open spec fn spec_parse_approval(s: Seq<char>) -> Option<ApprovalPolicy> {
    if s == "untrusted"@ {
        Some(ApprovalPolicy::Untrusted)
    } else if s == "on-failure"@ {
        Some(ApprovalPolicy::OnFailure)
    } else if s == "on-request"@ {
        Some(ApprovalPolicy::OnRequest)
    } else if s == "never"@ {
        Some(ApprovalPolicy::Never)
    } else {
        None
    }
}

impl ApprovalPolicy {
    /// Wire name of the policy.
    pub fn as_wire(self) -> (r: &'static str)
        ensures
            r@ == spec_approval_wire(self),
    {
        match self {
            ApprovalPolicy::Untrusted => "untrusted",
            ApprovalPolicy::OnFailure => "on-failure",
            ApprovalPolicy::OnRequest => "on-request",
            ApprovalPolicy::Never => "never",
        }
    }

    /// Parses a wire name; any other text is an error that quotes it.
    pub fn from_wire(value: &str) -> (r: Result<ApprovalPolicy, String>)
        ensures
            r matches Ok(p) ==> spec_parse_approval(value@) == Some(p),
            r matches Err(m) ==> spec_parse_approval(value@) is None
                && m@ == "unknown approval policy: "@ + value@,
    {
        if str_eq(value, "untrusted") {
            Ok(ApprovalPolicy::Untrusted)
        } else if str_eq(value, "on-failure") {
            Ok(ApprovalPolicy::OnFailure)
        } else if str_eq(value, "on-request") {
            Ok(ApprovalPolicy::OnRequest)
        } else if str_eq(value, "never") {
            Ok(ApprovalPolicy::Never)
        } else {
            let mut m = String::new();
            push_str(&mut m, "unknown approval policy: ");
            push_str(&mut m, value);
            Err(m)
        }
    }
}

impl core::str::FromStr for ApprovalPolicy {
    type Err = String;

    /// Parses a wire name (see `from_wire`).
    fn from_str(value: &str) -> (r: Result<ApprovalPolicy, String>)
        ensures
            r matches Ok(p) ==> spec_parse_approval(value@) == Some(p),
            r matches Err(m) ==> spec_parse_approval(value@) is None
                && m@ == "unknown approval policy: "@ + value@,
    {
        ApprovalPolicy::from_wire(value)
    }
}

/// Reasoning effort requested for a turn.
#[derive(Clone, Copy, Debug, PartialEq, Eq, Structural)]
pub enum ReasoningEffort {
    NoReasoning,
    Minimal,
    Low,
    Medium,
    High,
    XHigh,
}

/// Effort used when a caller gives none.
pub const DEFAULT_REASONING_EFFORT: ReasoningEffort = ReasoningEffort::Medium;

/// Wire name of a reasoning effort.
pub open spec fn spec_effort_wire(e: ReasoningEffort) -> Seq<char> {
    match e {
        ReasoningEffort::NoReasoning => "none"@,
        ReasoningEffort::Minimal => "minimal"@,
        ReasoningEffort::Low => "low"@,
        ReasoningEffort::Medium => "medium"@,
        ReasoningEffort::High => "high"@,
        ReasoningEffort::XHigh => "xhigh"@,
    }
}

/// The reasoning effort a wire name names, if any.
pub open spec fn spec_parse_effort(s: Seq<char>) -> Option<ReasoningEffort> {
    if s == "none"@ {
        Some(ReasoningEffort::NoReasoning)
    } else if s == "minimal"@ {
        Some(ReasoningEffort::Minimal)
    } else if s == "low"@ {
        Some(ReasoningEffort::Low)
    } else if s == "medium"@ {
        Some(ReasoningEffort::Medium)
    } else if s == "high"@ {
        Some(ReasoningEffort::High)
    } else if s == "xhigh"@ {
        Some(ReasoningEffort::XHigh)
    } else {
        None
    }
}

impl ReasoningEffort {
    /// Wire name of the effort.
    pub fn as_wire(self) -> (r: &'static str)
        ensures
            r@ == spec_effort_wire(self),
    {
        match self {
            ReasoningEffort::NoReasoning => "none",
            ReasoningEffort::Minimal => "minimal",
            ReasoningEffort::Low => "low",
            ReasoningEffort::Medium => "medium",
            ReasoningEffort::High => "high",
            ReasoningEffort::XHigh => "xhigh",
        }
    }

    /// Parses a wire name; any other text is an error that quotes it.
    pub fn from_wire(value: &str) -> (r: Result<ReasoningEffort, String>)
        ensures
            r matches Ok(e) ==> spec_parse_effort(value@) == Some(e),
            r matches Err(m) ==> spec_parse_effort(value@) is None
                && m@ == "unknown reasoning effort: "@ + value@,
    {
        if str_eq(value, "none") {
            Ok(ReasoningEffort::NoReasoning)
        } else if str_eq(value, "minimal") {
            Ok(ReasoningEffort::Minimal)
        } else if str_eq(value, "low") {
            Ok(ReasoningEffort::Low)
        } else if str_eq(value, "medium") {
            Ok(ReasoningEffort::Medium)
        } else if str_eq(value, "high") {
            Ok(ReasoningEffort::High)
        } else if str_eq(value, "xhigh") {
            Ok(ReasoningEffort::XHigh)
        } else {
            let mut m = String::new();
            push_str(&mut m, "unknown reasoning effort: ");
            push_str(&mut m, value);
            Err(m)
        }
    }
}

impl core::str::FromStr for ReasoningEffort {
    type Err = String;

    /// Parses a wire name (see `from_wire`).
    fn from_str(value: &str) -> (r: Result<ReasoningEffort, String>)
        ensures
            r matches Ok(e) ==> spec_parse_effort(value@) == Some(e),
            r matches Err(m) ==> spec_parse_effort(value@) is None
                && m@ == "unknown reasoning effort: "@ + value@,
    {
        ReasoningEffort::from_wire(value)
    }
}

/// Network access of an external sandbox.
#[derive(Clone, Copy, Debug, PartialEq, Eq, Structural)]
pub enum ExternalNetworkAccess {
    Restricted,
    Enabled,
}

/// Wire name of an external network access mode.
pub open spec fn spec_network_wire(n: ExternalNetworkAccess) -> Seq<char> {
    match n {
        ExternalNetworkAccess::Restricted => "restricted"@,
        ExternalNetworkAccess::Enabled => "enabled"@,
    }
}

impl ExternalNetworkAccess {
    /// Wire name of the access level.
    pub fn as_wire(self) -> (r: &'static str)
        ensures
            r@ == spec_network_wire(self),
    {
        match self {
            ExternalNetworkAccess::Restricted => "restricted",
            ExternalNetworkAccess::Enabled => "enabled",
        }
    }
}

/// A named sandbox configuration.
#[derive(Debug, PartialEq, Eq)]
pub enum SandboxPreset {
    ReadOnly,
    WorkspaceWrite { writable_roots: Vec<String>, network_access: bool },
    DangerFullAccess,
    ExternalSandbox { network_access: ExternalNetworkAccess },
}

/// The `type` tag of a preset in wire form.
pub open spec fn spec_preset_type_wire(p: SandboxPreset) -> Seq<char> {
    match p {
        SandboxPreset::ReadOnly => "readOnly"@,
        SandboxPreset::WorkspaceWrite { .. } => "workspaceWrite"@,
        SandboxPreset::DangerFullAccess => "dangerFullAccess"@,
        SandboxPreset::ExternalSandbox { .. } => "externalSandbox"@,
    }
}

/// The legacy kebab-case name of a preset, where it has one.
pub open spec fn spec_preset_legacy_wire(p: SandboxPreset) -> Option<Seq<char>> {
    match p {
        SandboxPreset::ReadOnly => Some("read-only"@),
        SandboxPreset::WorkspaceWrite { .. } => Some("workspace-write"@),
        SandboxPreset::DangerFullAccess => Some("danger-full-access"@),
        SandboxPreset::ExternalSandbox { .. } => None,
    }
}

impl SandboxPreset {
    /// The `type` tag of the preset's object form.
    pub fn as_type_wire(&self) -> (r: &'static str)
        ensures
            r@ == spec_preset_type_wire(*self),
    {
        match self {
            SandboxPreset::ReadOnly => "readOnly",
            SandboxPreset::WorkspaceWrite { .. } => "workspaceWrite",
            SandboxPreset::DangerFullAccess => "dangerFullAccess",
            SandboxPreset::ExternalSandbox { .. } => "externalSandbox",
        }
    }

    /// The legacy kebab-case name, where the preset has one.
    pub fn as_legacy_wire(&self) -> (r: Option<&'static str>)
        ensures
            r is Some == spec_preset_legacy_wire(*self) is Some,
            r is Some ==> r->0@ == spec_preset_legacy_wire(*self)->0,
    {
        match self {
            SandboxPreset::ReadOnly => Some("read-only"),
            SandboxPreset::WorkspaceWrite { .. } => Some("workspace-write"),
            SandboxPreset::DangerFullAccess => Some("danger-full-access"),
            SandboxPreset::ExternalSandbox { .. } => None,
        }
    }
}

/// A sandbox policy: a preset, or a raw wire object passed through.
#[derive(Debug)]
pub enum SandboxPolicy {
    Preset(SandboxPreset),
    Raw(JsonValue),
}

/// Why a sandbox policy in wire form is refused, if it is: it must be an
/// object whose `type` is a non-blank string. `field` names the value in
/// the message.
pub open spec fn sandbox_wire_error(v: JsonValue, field: Seq<char>) -> Option<Seq<char>> {
    if !(v is Object) {
        Some(field + " must be an object"@)
    } else if spec_non_blank_str(spec_get(v, "type"@)) {
        None
    } else {
        Some(field + ".type must be a non-empty string"@)
    }
}

/// Checks a sandbox policy in wire form and gives its `type`.
pub fn summarize_sandbox_policy_wire_value(value: &JsonValue, field_name: &str) -> (r: Result<String, String>)
    ensures
        r matches Ok(t) ==> sandbox_wire_error(*value, field_name@) is None
            && spec_as_str(spec_get(*value, "type"@)) == Some(t@),
        r matches Err(m) ==> sandbox_wire_error(*value, field_name@) == Some(m@),
{
    if !value.is_object() {
        let mut m = owned(field_name);
        push_str(&mut m, " must be an object");
        return Err(m);
    }
    let ty = value.get("type");
    if non_blank_str(ty) {
        match ty {
            Some(t) => match t.as_str() {
                Some(text) => Ok(owned(text)),
                None => Err(String::new()),
            },
            None => Err(String::new()),
        }
    } else {
        let mut m = owned(field_name);
        push_str(&mut m, ".type must be a non-empty string");
        Err(m)
    }
}

/// `a` and `b` are the same preset (writable roots compared by their text).
pub open spec fn preset_same(a: SandboxPreset, b: SandboxPreset) -> bool {
    match (a, b) {
        (SandboxPreset::WorkspaceWrite { writable_roots: ra, network_access: na },
         SandboxPreset::WorkspaceWrite { writable_roots: rb, network_access: nb }) =>
            str_views(ra@) == str_views(rb@) && na == nb,
        (SandboxPreset::ExternalSandbox { network_access: na }, SandboxPreset::ExternalSandbox { network_access: nb }) => na == nb,
        (SandboxPreset::ReadOnly, SandboxPreset::ReadOnly) => true,
        (SandboxPreset::DangerFullAccess, SandboxPreset::DangerFullAccess) => true,
        _ => false,
    }
}

/// `a` and `b` are the same policy.
pub open spec fn policy_same(a: SandboxPolicy, b: SandboxPolicy) -> bool {
    match (a, b) {
        (SandboxPolicy::Preset(x), SandboxPolicy::Preset(y)) => preset_same(x, y),
        (SandboxPolicy::Raw(x), SandboxPolicy::Raw(y)) => json_same(x, y),
        _ => false,
    }
}

/// Copies of strings.
pub fn clone_strings(v: &Vec<String>) -> (r: Vec<String>)
    ensures
        str_views(r@) == str_views(v@),
{
    let mut out: Vec<String> = Vec::new();
    let mut i: usize = 0;
    while i < v.len()
        invariant
            i <= v.len(),
            str_views(out@) == str_views(v@).take(i as int),
        decreases v.len() - i,
    {
        let c = v[i].clone();
        let ghost before = out@;
        out.push(c);
        assert(str_views(out@) =~= str_views(before).push(v@[i as int]@));
        assert(str_views(v@).take(i + 1 as int) =~= str_views(v@).take(i as int).push(v@[i as int]@));
        i += 1;
    }
    assert(str_views(v@).take(v.len() as int) =~= str_views(v@));
    out
}

/// A copy of a preset.
pub fn clone_preset(p: &SandboxPreset) -> (r: SandboxPreset)
    ensures
        preset_same(r, *p),
{
    match p {
        SandboxPreset::ReadOnly => SandboxPreset::ReadOnly,
        SandboxPreset::WorkspaceWrite { writable_roots, network_access } => SandboxPreset::WorkspaceWrite {
            writable_roots: clone_strings(writable_roots),
            network_access: *network_access,
        },
        SandboxPreset::DangerFullAccess => SandboxPreset::DangerFullAccess,
        SandboxPreset::ExternalSandbox { network_access } => SandboxPreset::ExternalSandbox { network_access: *network_access },
    }
}

/// A copy of a policy.
pub fn clone_sandbox_policy(p: &SandboxPolicy) -> (r: SandboxPolicy)
    ensures
        policy_same(r, *p),
{
    match p {
        SandboxPolicy::Preset(x) => SandboxPolicy::Preset(clone_preset(x)),
        SandboxPolicy::Raw(v) => SandboxPolicy::Raw(clone_json(v)),
    }
}

/// Sort key of a thread listing.
#[derive(Clone, Copy, Debug, PartialEq, Eq, Structural)]
pub enum ThreadListSortKey {
    CreatedAt,
    UpdatedAt,
}

/// Wire name of a thread sort key.
pub open spec fn spec_sort_key_wire(k: ThreadListSortKey) -> Seq<char> {
    match k {
        ThreadListSortKey::CreatedAt => "created_at"@,
        ThreadListSortKey::UpdatedAt => "updated_at"@,
    }
}

/// The sort key a wire name names, if any.
pub open spec fn spec_parse_sort_key(s: Seq<char>) -> Option<ThreadListSortKey> {
    if s == "created_at"@ {
        Some(ThreadListSortKey::CreatedAt)
    } else if s == "updated_at"@ {
        Some(ThreadListSortKey::UpdatedAt)
    } else {
        None
    }
}

impl ThreadListSortKey {
    /// Wire name of the sort key.
    pub fn as_wire(self) -> (r: &'static str)
        ensures
            r@ == spec_sort_key_wire(self),
    {
        match self {
            ThreadListSortKey::CreatedAt => "created_at",
            ThreadListSortKey::UpdatedAt => "updated_at",
        }
    }

    /// Parses a wire name; any other text is an error that quotes it.
    pub fn from_wire(value: &str) -> (r: Result<ThreadListSortKey, String>)
        ensures
            r matches Ok(k) ==> spec_parse_sort_key(value@) == Some(k),
            r matches Err(m) ==> spec_parse_sort_key(value@) is None
                && m@ == "unknown thread list sort key: "@ + value@,
    {
        if str_eq(value, "created_at") {
            Ok(ThreadListSortKey::CreatedAt)
        } else if str_eq(value, "updated_at") {
            Ok(ThreadListSortKey::UpdatedAt)
        } else {
            let mut m = String::new();
            push_str(&mut m, "unknown thread list sort key: ");
            push_str(&mut m, value);
            Err(m)
        }
    }
}

impl core::str::FromStr for ThreadListSortKey {
    type Err = String;

    /// Parses a wire name (see `from_wire`).
    fn from_str(value: &str) -> (r: Result<ThreadListSortKey, String>)
        ensures
            r matches Ok(k) ==> spec_parse_sort_key(value@) == Some(k),
            r matches Err(m) ==> spec_parse_sort_key(value@) is None
                && m@ == "unknown thread list sort key: "@ + value@,
    {
        ThreadListSortKey::from_wire(value)
    }
}

/// Kind of a thread item; unknown kinds keep their wire name.
#[derive(Debug, PartialEq, Eq)]
pub enum ThreadItemType {
    UserMessage,
    AgentMessage,
    Reasoning,
    CommandExecution,
    FileChange,
    McpToolCall,
    CollabAgentToolCall,
    WebSearch,
    ImageView,
    EnteredReviewMode,
    ExitedReviewMode,
    Unknown(String),
}

/// Wire name of a thread item kind.
pub open spec fn spec_item_type_wire(t: ThreadItemType) -> Seq<char> {
    match t {
        ThreadItemType::UserMessage => "userMessage"@,
        ThreadItemType::AgentMessage => "agentMessage"@,
        ThreadItemType::Reasoning => "reasoning"@,
        ThreadItemType::CommandExecution => "commandExecution"@,
        ThreadItemType::FileChange => "fileChange"@,
        ThreadItemType::McpToolCall => "mcpToolCall"@,
        ThreadItemType::CollabAgentToolCall => "collabAgentToolCall"@,
        ThreadItemType::WebSearch => "webSearch"@,
        ThreadItemType::ImageView => "imageView"@,
        ThreadItemType::EnteredReviewMode => "enteredReviewMode"@,
        ThreadItemType::ExitedReviewMode => "exitedReviewMode"@,
        ThreadItemType::Unknown(raw) => raw@,
    }
}

/// `s` is the wire name of one of the named item kinds.
pub open spec fn is_known_item_wire(s: Seq<char>) -> bool {
    ||| s == "userMessage"@
    ||| s == "agentMessage"@
    ||| s == "reasoning"@
    ||| s == "commandExecution"@
    ||| s == "fileChange"@
    ||| s == "mcpToolCall"@
    ||| s == "collabAgentToolCall"@
    ||| s == "webSearch"@
    ||| s == "imageView"@
    ||| s == "enteredReviewMode"@
    ||| s == "exitedReviewMode"@
}

impl ThreadItemType {
    /// Wire name of the kind.
    pub fn as_wire(&self) -> (r: &str)
        ensures
            r@ == spec_item_type_wire(*self),
    {
        match self {
            ThreadItemType::UserMessage => "userMessage",
            ThreadItemType::AgentMessage => "agentMessage",
            ThreadItemType::Reasoning => "reasoning",
            ThreadItemType::CommandExecution => "commandExecution",
            ThreadItemType::FileChange => "fileChange",
            ThreadItemType::McpToolCall => "mcpToolCall",
            ThreadItemType::CollabAgentToolCall => "collabAgentToolCall",
            ThreadItemType::WebSearch => "webSearch",
            ThreadItemType::ImageView => "imageView",
            ThreadItemType::EnteredReviewMode => "enteredReviewMode",
            ThreadItemType::ExitedReviewMode => "exitedReviewMode",
            ThreadItemType::Unknown(raw) => raw.as_str(),
        }
    }

    /// The kind named by `raw`; any other name becomes `Unknown(raw)`.
    pub fn from_wire(raw: &str) -> (r: ThreadItemType)
        ensures
            spec_item_type_wire(r) == raw@,
            r is Unknown <==> !is_known_item_wire(raw@),
    {
        if str_eq(raw, "userMessage") {
            ThreadItemType::UserMessage
        } else if str_eq(raw, "agentMessage") {
            ThreadItemType::AgentMessage
        } else if str_eq(raw, "reasoning") {
            ThreadItemType::Reasoning
        } else if str_eq(raw, "commandExecution") {
            ThreadItemType::CommandExecution
        } else if str_eq(raw, "fileChange") {
            ThreadItemType::FileChange
        } else if str_eq(raw, "mcpToolCall") {
            ThreadItemType::McpToolCall
        } else if str_eq(raw, "collabAgentToolCall") {
            ThreadItemType::CollabAgentToolCall
        } else if str_eq(raw, "webSearch") {
            ThreadItemType::WebSearch
        } else if str_eq(raw, "imageView") {
            ThreadItemType::ImageView
        } else if str_eq(raw, "enteredReviewMode") {
            ThreadItemType::EnteredReviewMode
        } else if str_eq(raw, "exitedReviewMode") {
            ThreadItemType::ExitedReviewMode
        } else {
            ThreadItemType::Unknown(raw.to_owned())
        }
    }
}

/// Status of a turn as reported by `thread/read`.
#[derive(Clone, Copy, Debug, PartialEq, Eq, Structural)]
pub enum ThreadTurnStatus {
    Completed,
    Interrupted,
    Failed,
    InProgress,
}

/// Parameters of `thread/read`.
#[derive(Debug, PartialEq, Eq)]
pub struct ThreadReadParams {
    pub thread_id: String,
    pub include_turns: Option<bool>,
}

/// Parameters of `thread/list`.
#[derive(Debug, Default, PartialEq, Eq)]
pub struct ThreadListParams {
    pub archived: Option<bool>,
    pub cursor: Option<String>,
    pub limit: Option<u32>,
    pub model_providers: Option<Vec<String>>,
    pub sort_key: Option<ThreadListSortKey>,
}

/// Parameters of `thread/loaded/list`.
#[derive(Debug, Default, PartialEq, Eq)]
pub struct ThreadLoadedListParams {
    pub cursor: Option<String>,
    pub limit: Option<u32>,
}

/// Result of `thread/loaded/list`.
#[derive(Debug, PartialEq, Eq)]
pub struct ThreadLoadedListResponse {
    pub data: Vec<String>,
    pub next_cursor: Option<String>,
}

/// Parameters of `thread/rollback`.
#[derive(Debug, PartialEq, Eq)]
pub struct ThreadRollbackParams {
    pub thread_id: String,
    pub num_turns: u32,
}

/// A started turn.
#[derive(Debug, PartialEq, Eq)]
pub struct TurnHandle {
    pub turn_id: String,
    pub thread_id: String,
}

} // verus!
