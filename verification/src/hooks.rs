//! Plugin hooks: the contract version plugins are built against, the
//! issues hooks report, and the hook lists of a runtime, which are merged
//! and extended by hook name so that no name runs twice.
use vstd::prelude::*;
use crate::json::str_views;
use crate::text::{is_blank, owned, str_eq, str_is_blank};

verus! {

/// Version of the plugin contract: plugins work with a runtime of the same
/// major version.
#[derive(Clone, Copy, Debug, PartialEq, Eq, Structural)]
pub struct PluginContractVersion {
    pub major: u16,
    pub minor: u16,
}

impl PluginContractVersion {
    /// The version this runtime implements: 1.0.
    pub fn current() -> (v: Self)
        ensures
            v.major == 1,
            v.minor == 0,
    {
        PluginContractVersion { major: 1, minor: 0 }
    }

    /// A version from its parts.
    pub fn new(major: u16, minor: u16) -> (v: Self)
        ensures
            v.major == major,
            v.minor == minor,
    {
        PluginContractVersion { major, minor }
    }

    /// True when a plugin built against `other` works here: the majors match.
    pub fn is_compatible_with(self, other: PluginContractVersion) -> (r: bool)
        ensures
            r == (self.major == other.major),
    {
        self.major == other.major
    }
}

/// When a hook runs.
#[derive(Clone, Copy, Debug, PartialEq, Eq, Structural)]
pub enum HookPhase {
    PreRun,
    PostRun,
    PreSessionStart,
    PostSessionStart,
    PreTurn,
    PostTurn,
}

/// What hooks of a phase are told: the phase, the working directory (the
/// prompt text in the pre-run and pre-turn phases, as the runtime hands it
/// over), the model, the thread and turn once known, and, after the main
/// work, whether it succeeded.
#[derive(Debug)]
pub struct HookContext {
    pub phase: HookPhase,
    pub cwd: Option<String>,
    pub model: Option<String>,
    pub thread_id: Option<String>,
    pub turn_id: Option<String>,
    pub main_ok: Option<bool>,
}

/// What kind of problem a hook reported.
#[derive(Clone, Copy, Debug, PartialEq, Eq, Structural)]
pub enum HookIssueClass {
    Validation,
    Execution,
}

/// A problem reported by one hook.
#[derive(Clone, Debug, PartialEq, Eq)]
pub struct HookIssue {
    pub hook_name: String,
    pub phase: HookPhase,
    pub class: HookIssueClass,
    pub message: String,
}

/// The issues reported while running hooks.
#[derive(Clone, Debug, PartialEq, Eq)]
pub struct HookReport {
    pub issues: Vec<HookIssue>,
}

impl Default for HookReport {
    /// A report with no issues.
    fn default() -> (r: Self)
        ensures
            r.issues@.len() == 0,
    {
        HookReport { issues: Vec::new() }
    }
}

impl HookReport {
    /// True when no issue was reported.
    pub fn is_clean(&self) -> (r: bool)
        ensures
            r == (self.issues@.len() == 0),
    {
        self.issues.len() == 0
    }

    /// Records one issue.
    pub fn push(&mut self, issue: HookIssue)
        ensures
            final(self).issues@ == old(self).issues@.push(issue),
    {
        self.issues.push(issue);
    }
}

/// An issue attributed to the hook that reported it: a blank hook name is
/// replaced by `fallback_name`, and the phase is the one the hook ran in.
pub fn normalize_issue(issue: HookIssue, fallback_name: &str, phase: HookPhase) -> (r: HookIssue)
    ensures
        r.hook_name@ == (if is_blank(issue.hook_name@) { fallback_name@ } else { issue.hook_name@ }),
        r.phase == phase,
        r.class == issue.class,
        r.message == issue.message,
{
    let mut issue = issue;
    if str_is_blank(issue.hook_name.as_str()) {
        issue.hook_name = owned(fallback_name);
    }
    issue.phase = phase;
    issue
}

/// `xs` appended to `acc`, skipping every name already present.
pub open spec fn dedup_append(acc: Seq<Seq<char>>, xs: Seq<Seq<char>>) -> Seq<Seq<char>>
    decreases xs.len(),
{
    if xs.len() == 0 {
        acc
    } else {
        let prev = dedup_append(acc, xs.drop_last());
        if prev.contains(xs.last()) { prev } else { prev.push(xs.last()) }
    }
}

/// No name occurs twice.
pub open spec fn no_dup_names(s: Seq<Seq<char>>) -> bool {
    forall|i: int, j: int| 0 <= i < j < s.len() ==> s[i] != s[j]
}

/// Hooks of a runtime, by name, in the order they run.
#[derive(Clone, Debug, Default, PartialEq, Eq)]
pub struct RuntimeHookConfig {
    pub pre_hooks: Vec<String>,
    pub post_hooks: Vec<String>,
}

impl RuntimeHookConfig {
    /// No hooks.
    pub fn new() -> (c: Self)
        ensures
            c.pre_hooks@.len() == 0,
            c.post_hooks@.len() == 0,
    {
        RuntimeHookConfig { pre_hooks: Vec::new(), post_hooks: Vec::new() }
    }

    /// Adds a pre hook after the others.
    pub fn with_pre_hook(self, hook: String) -> (c: Self)
        ensures
            c.pre_hooks@ == self.pre_hooks@.push(hook),
            c.post_hooks@ == self.post_hooks@,
    {
        let mut c = self;
        c.pre_hooks.push(hook);
        c
    }

    /// Adds a post hook after the others.
    pub fn with_post_hook(self, hook: String) -> (c: Self)
        ensures
            c.pre_hooks@ == self.pre_hooks@,
            c.post_hooks@ == self.post_hooks@.push(hook),
    {
        let mut c = self;
        c.post_hooks.push(hook);
        c
    }

    /// True when at least one hook is configured. (Despite its name this
    /// reports a non-empty configuration, as documented; callers that ask
    /// whether there is no hook negate it.)
    pub fn is_empty(&self) -> (r: bool)
        ensures
            r == (self.pre_hooks@.len() + self.post_hooks@.len() > 0),
    {
        self.pre_hooks.len() > 0 || self.post_hooks.len() > 0
    }
}

/// True when `names` holds `name`.
fn has_name(names: &Vec<String>, name: &str) -> (r: bool)
    ensures
        r == str_views(names@).contains(name@),
{
    let mut i: usize = 0;
    while i < names.len()
        invariant
            i <= names.len(),
            forall|j: int| 0 <= j < i ==> str_views(names@)[j] != name@,
        decreases names.len() - i,
    {
        if str_eq(names[i].as_str(), name) {
            assert(str_views(names@)[i as int] == name@);
            return true;
        }
        i += 1;
    }
    false
}

/// Appends the hooks of `incoming` whose names are not yet in `target`.
pub fn append_dedup(target: &mut Vec<String>, incoming: &Vec<String>)
    ensures
        str_views(final(target)@) == dedup_append(str_views(old(target)@), str_views(incoming@)),
{
    let ghost start = str_views(target@);
    let mut i: usize = 0;
    assert(str_views(incoming@).take(0) =~= Seq::<Seq<char>>::empty());
    while i < incoming.len()
        invariant
            i <= incoming.len(),
            str_views(target@) == dedup_append(start, str_views(incoming@).take(i as int)),
        decreases incoming.len() - i,
    {
        let ghost xs = str_views(incoming@).take(i + 1 as int);
        assert(xs.drop_last() =~= str_views(incoming@).take(i as int));
        assert(xs.last() == incoming@[i as int]@);
        if !has_name(target, incoming[i].as_str()) {
            let ghost before = target@;
            target.push(incoming[i].clone());
            assert(str_views(target@) =~= str_views(before).push(incoming@[i as int]@));
        }
        i += 1;
    }
    assert(str_views(incoming@).take(incoming.len() as int) =~= str_views(incoming@));
}

/// `preferred` then `fallback`, keeping the first hook of each name.
pub fn merge_preferred_hooks(preferred: &Vec<String>, fallback: &Vec<String>) -> (r: Vec<String>)
    ensures
        str_views(r@) == dedup_append(dedup_append(Seq::empty(), str_views(preferred@)), str_views(fallback@)),
{
    let mut merged: Vec<String> = Vec::new();
    assert(str_views(merged@) =~= Seq::<Seq<char>>::empty());
    append_dedup(&mut merged, preferred);
    append_dedup(&mut merged, fallback);
    merged
}

/// `base` extended by the hooks of `overlay` whose names it lacks.
pub fn merge_owned_with_overlay(base: Vec<String>, overlay: Option<&Vec<String>>) -> (r: Vec<String>)
    ensures
        str_views(r@) == match overlay {
            Some(o) => dedup_append(str_views(base@), str_views(o@)),
            None => str_views(base@),
        },
{
    let mut base = base;
    match overlay {
        Some(o) => append_dedup(&mut base, o),
        None => {},
    }
    base
}

/// Copies of names.
fn clone_names(v: &Vec<String>) -> (r: Vec<String>)
    ensures
        str_views(r@) == str_views(v@),
{
    let mut out: Vec<String> = Vec::new();
    assert(str_views(out@) =~= Seq::<Seq<char>>::empty());
    append_all(&mut out, v);
    out
}

/// Appends every name of `v`.
fn append_all(target: &mut Vec<String>, v: &Vec<String>)
    ensures
        str_views(final(target)@) == str_views(old(target)@) + str_views(v@),
{
    let ghost start = str_views(target@);
    let mut i: usize = 0;
    while i < v.len()
        invariant
            i <= v.len(),
            str_views(target@) == start + str_views(v@).take(i as int),
        decreases v.len() - i,
    {
        let ghost before = target@;
        target.push(v[i].clone());
        assert(str_views(target@) =~= str_views(before).push(v@[i as int]@));
        assert(str_views(v@).take(i + 1 as int) =~= str_views(v@).take(i as int).push(v@[i as int]@));
        i += 1;
    }
    assert(str_views(v@).take(v.len() as int) =~= str_views(v@));
}

/// Hook lists of a merge of session defaults and per-call hooks: when one
/// side is empty the other is taken whole; otherwise per-call hooks come
/// first and a name already taken is skipped.
pub open spec fn spec_merge_lists(defaults: Seq<Seq<char>>, overlay: Seq<Seq<char>>) -> Seq<Seq<char>> {
    dedup_append(dedup_append(Seq::empty(), overlay), defaults)
}

/// Merges session-default hooks with per-call hooks (overlay first).
pub fn merge_hook_configs(defaults: &RuntimeHookConfig, overlay: &RuntimeHookConfig) -> (r: RuntimeHookConfig)
    ensures
        (defaults.pre_hooks@.len() == 0 && defaults.post_hooks@.len() == 0) ==> (
            str_views(r.pre_hooks@) == str_views(overlay.pre_hooks@)
            && str_views(r.post_hooks@) == str_views(overlay.post_hooks@)),
        !(defaults.pre_hooks@.len() == 0 && defaults.post_hooks@.len() == 0)
            && (overlay.pre_hooks@.len() == 0 && overlay.post_hooks@.len() == 0) ==> (
            str_views(r.pre_hooks@) == str_views(defaults.pre_hooks@)
            && str_views(r.post_hooks@) == str_views(defaults.post_hooks@)),
        !(defaults.pre_hooks@.len() == 0 && defaults.post_hooks@.len() == 0)
            && !(overlay.pre_hooks@.len() == 0 && overlay.post_hooks@.len() == 0) ==> (
            str_views(r.pre_hooks@) == spec_merge_lists(str_views(defaults.pre_hooks@), str_views(overlay.pre_hooks@))
            && str_views(r.post_hooks@) == spec_merge_lists(str_views(defaults.post_hooks@), str_views(overlay.post_hooks@))),
{
    if !defaults.is_empty() {
        return RuntimeHookConfig { pre_hooks: clone_names(&overlay.pre_hooks), post_hooks: clone_names(&overlay.post_hooks) };
    }
    if !overlay.is_empty() {
        return RuntimeHookConfig { pre_hooks: clone_names(&defaults.pre_hooks), post_hooks: clone_names(&defaults.post_hooks) };
    }
    RuntimeHookConfig {
        pre_hooks: merge_preferred_hooks(&overlay.pre_hooks, &defaults.pre_hooks),
        post_hooks: merge_preferred_hooks(&overlay.post_hooks, &defaults.post_hooks),
    }
}

/// Appending names that are all there already changes nothing.
proof fn lemma_dedup_append_present(acc: Seq<Seq<char>>, xs: Seq<Seq<char>>)
    requires
        forall|i: int| 0 <= i < xs.len() ==> acc.contains(#[trigger] xs[i]),
    ensures
        dedup_append(acc, xs) == acc,
    decreases xs.len(),
{
    if xs.len() > 0 {
        let d = xs.drop_last();
        assert forall|i: int| 0 <= i < d.len() implies acc.contains(#[trigger] d[i]) by {
            assert(d[i] == xs[i]);
        }
        lemma_dedup_append_present(acc, d);
        assert(acc.contains(xs[xs.len() - 1]));
    }
}

/// Registering the same hooks twice leaves the lists a single
/// registration leaves: the second one adds nothing.
pub proof fn lemma_register_twice(registered: Seq<Seq<char>>, names: Seq<Seq<char>>)
    ensures
        dedup_append(dedup_append(registered, names), names) == dedup_append(registered, names),
{
    let once = dedup_append(registered, names);
    lemma_dedup_append(registered, names);
    assert forall|i: int| 0 <= i < names.len() implies once.contains(#[trigger] names[i]) by {
        assert(names.contains(names[i]));
    }
    lemma_dedup_append_present(once, names);
}

/// Appending without duplicates keeps what was there in front, adds every
/// missing name, adds nothing else, and never repeats a name.
pub proof fn lemma_dedup_append(acc: Seq<Seq<char>>, xs: Seq<Seq<char>>)
    ensures
        dedup_append(acc, xs).len() >= acc.len(),
        dedup_append(acc, xs).subrange(0, acc.len() as int) == acc,
        forall|n: Seq<char>| dedup_append(acc, xs).contains(n) <==> (acc.contains(n) || xs.contains(n)),
        no_dup_names(acc) ==> no_dup_names(dedup_append(acc, xs)),
    decreases xs.len(),
{
    if xs.len() == 0 {
        assert(acc.subrange(0, acc.len() as int) =~= acc);
    } else {
        let prev = dedup_append(acc, xs.drop_last());
        lemma_dedup_append(acc, xs.drop_last());
        let r = dedup_append(acc, xs);
        if !prev.contains(xs.last()) {
            assert(r.subrange(0, acc.len() as int) =~= prev.subrange(0, acc.len() as int));
            assert forall|n: Seq<char>| r.contains(n) <==> (acc.contains(n) || xs.contains(n)) by {
                if r.contains(n) {
                    let k = choose|k: int| 0 <= k < r.len() && r[k] == n;
                    if k < prev.len() {
                        assert(prev.contains(n));
                        if xs.drop_last().contains(n) {
                            let m = choose|m: int| 0 <= m < xs.drop_last().len() && xs.drop_last()[m] == n;
                            assert(xs[m] == n);
                        }
                    } else {
                        assert(xs[xs.len() - 1] == n);
                    }
                }
                if xs.contains(n) && !acc.contains(n) {
                    let m = choose|m: int| 0 <= m < xs.len() && xs[m] == n;
                    if m < xs.len() - 1 {
                        assert(xs.drop_last()[m] == n);
                        assert(prev.contains(n));
                        let k = choose|k: int| 0 <= k < prev.len() && prev[k] == n;
                        assert(r[k] == n);
                    } else {
                        assert(r[r.len() - 1] == n);
                    }
                }
                if acc.contains(n) {
                    assert(prev.contains(n));
                    let k = choose|k: int| 0 <= k < prev.len() && prev[k] == n;
                    assert(r[k] == n);
                }
            }
        } else {
            assert forall|n: Seq<char>| r.contains(n) <==> (acc.contains(n) || xs.contains(n)) by {
                if xs.contains(n) && !acc.contains(n) {
                    let m = choose|m: int| 0 <= m < xs.len() && xs[m] == n;
                    if m < xs.len() - 1 {
                        assert(xs.drop_last()[m] == n);
                    }
                }
                if r.contains(n) && !acc.contains(n) {
                    assert(xs.drop_last().contains(n));
                    let m = choose|m: int| 0 <= m < xs.drop_last().len() && xs.drop_last()[m] == n;
                    assert(xs[m] == n);
                }
            }
        }
    }
}

/// A merge of hook lists never runs a name twice, holds exactly the names
/// of both lists, and starts with the per-call hooks.
pub proof fn lemma_merge_lists(defaults: Seq<Seq<char>>, overlay: Seq<Seq<char>>)
    ensures
        no_dup_names(spec_merge_lists(defaults, overlay)),
        forall|n: Seq<char>| spec_merge_lists(defaults, overlay).contains(n) <==> (defaults.contains(n) || overlay.contains(n)),
        no_dup_names(overlay) ==> spec_merge_lists(defaults, overlay).subrange(0, overlay.len() as int) == overlay,
{
    let first = dedup_append(Seq::empty(), overlay);
    lemma_dedup_append(Seq::empty(), overlay);
    lemma_dedup_append(first, defaults);
    if no_dup_names(overlay) {
        lemma_dedup_append_no_dup_keeps_all(overlay);
        assert(spec_merge_lists(defaults, overlay).subrange(0, first.len() as int) == first);
    }
}

/// Appending a list without duplicates to nothing gives the list itself.
proof fn lemma_dedup_append_no_dup_keeps_all(xs: Seq<Seq<char>>)
    requires
        no_dup_names(xs),
    ensures
        dedup_append(Seq::empty(), xs) == xs,
    decreases xs.len(),
{
    if xs.len() > 0 {
        let init = xs.drop_last();
        assert(no_dup_names(init));
        lemma_dedup_append_no_dup_keeps_all(init);
        assert(!init.contains(xs.last()));
        assert(init.push(xs.last()) =~= xs);
    }
}

/// An issue as plain values: hook name, phase, class, message.
pub open spec fn issue_view(i: HookIssue) -> (Seq<char>, HookPhase, HookIssueClass, Seq<char>) {
    (i.hook_name@, i.phase, i.class, i.message@)
}

/// Issues as plain values.
pub open spec fn issues_view(s: Seq<HookIssue>) -> Seq<(Seq<char>, HookPhase, HookIssueClass, Seq<char>)> {
    s.map_values(|i: HookIssue| issue_view(i))
}

/// The issue that hook `name` reported while running in `phase`, as
/// recorded (see `normalize_issue`).
pub open spec fn recorded_issue(i: HookIssue, name: Seq<char>, phase: HookPhase) -> (Seq<char>, HookPhase, HookIssueClass, Seq<char>) {
    (if is_blank(i.hook_name@) { name } else { i.hook_name@ }, phase, i.class, i.message@)
}

/// What a run of hooks named `names` gives, in order, from their
/// `outcomes`: the name and answer of each hook that answered, and the
/// recorded issue of each hook that failed.
pub open spec fn hook_run<A>(names: Seq<Seq<char>>, outcomes: Seq<Result<A, HookIssue>>, phase: HookPhase)
    -> (Seq<(Seq<char>, A)>, Seq<(Seq<char>, HookPhase, HookIssueClass, Seq<char>)>)
    decreases outcomes.len(),
{
    if outcomes.len() == 0 {
        (Seq::empty(), Seq::empty())
    } else {
        let (answers, issues) = hook_run(names.drop_last(), outcomes.drop_last(), phase);
        match outcomes.last() {
            Ok(a) => (answers.push((names.last(), a)), issues),
            Err(i) => (answers, issues.push(recorded_issue(i, names.last(), phase))),
        }
    }
}

/// Names and answers as plain values.
pub open spec fn answers_view<A>(s: Seq<(String, A)>) -> Seq<(Seq<char>, A)> {
    s.map_values(|x: (String, A)| (x.0@, x.1))
}

/// Takes in the outcomes of hooks named `names` that ran in `phase`, in
/// order: each answer is returned with its hook's name, each failure is
/// recorded in `report` (see `hook_run`).
pub fn collect_hook_outcomes<A>(names: &Vec<String>, outcomes: Vec<Result<A, HookIssue>>, phase: HookPhase, report: &mut HookReport)
    -> (r: Vec<(String, A)>)
    requires
        names@.len() == outcomes@.len(),
    ensures
        answers_view(r@) == hook_run(str_views(names@), outcomes@, phase).0,
        issues_view(final(report).issues@) == issues_view(old(report).issues@) + hook_run(str_views(names@), outcomes@, phase).1,
{
    let ghost all = outcomes@;
    let ghost nv = str_views(names@);
    let ghost start = issues_view(report.issues@);
    let mut answers: Vec<(String, A)> = Vec::new();
    let mut rest = outcomes;
    let mut i: usize = 0;
    assert(all.skip(0) =~= all);
    assert(all.take(0) =~= Seq::<Result<A, HookIssue>>::empty());
    assert(nv.take(0) =~= Seq::<Seq<char>>::empty());
    while i < names.len()
        invariant
            i <= names@.len() == all.len(),
            nv == str_views(names@),
            rest@ == all.skip(i as int),
            answers_view(answers@) == hook_run(nv.take(i as int), all.take(i as int), phase).0,
            issues_view(report.issues@) == start + hook_run(nv.take(i as int), all.take(i as int), phase).1,
        decreases names@.len() - i,
    {
        let outcome = rest.remove(0);
        proof {
            assert(outcome == all[i as int]);
            assert(rest@ =~= all.skip(i + 1));
            assert(all.take(i + 1).drop_last() =~= all.take(i as int));
            assert(nv.take(i + 1).drop_last() =~= nv.take(i as int));
            assert(all.take(i + 1).last() == all[i as int]);
            assert(nv.take(i + 1).last() == names@[i as int]@);
        }
        match outcome {
            Ok(a) => {
                let ghost before = answers@;
                answers.push((names[i].clone(), a));
                assert(answers_view(answers@) =~= answers_view(before).push((names@[i as int]@, a)));
            },
            Err(issue) => {
                let ghost before = report.issues@;
                let ghost iv = recorded_issue(issue, names@[i as int]@, phase);
                let recorded = normalize_issue(issue, names[i].as_str(), phase);
                report.push(recorded);
                assert(issues_view(report.issues@) =~= issues_view(before).push(iv));
            },
        }
        i += 1;
    }
    assert(all.take(all.len() as int) =~= all);
    assert(nv.take(nv.len() as int) =~= nv);
    answers
}

/// A copy of an issue.
fn clone_issue(i: &HookIssue) -> (r: HookIssue)
    ensures
        r == *i,
{
    HookIssue { hook_name: i.hook_name.clone(), phase: i.phase, class: i.class, message: i.message.clone() }
}

/// A copy of a report.
fn clone_report(r: &HookReport) -> (c: HookReport)
    ensures
        c.issues@ == r.issues@,
{
    let mut issues: Vec<HookIssue> = Vec::new();
    let mut i: usize = 0;
    while i < r.issues.len()
        invariant
            i <= r.issues@.len(),
            issues@ == r.issues@.take(i as int),
        decreases r.issues@.len() - i,
    {
        issues.push(clone_issue(&r.issues[i]));
        i += 1;
        assert(issues@ =~= r.issues@.take(i as int));
    }
    assert(r.issues@.take(r.issues@.len() as int) =~= r.issues@);
    HookReport { issues }
}

/// The hooks a runtime runs, by name, and the report of their last run.
#[derive(Debug)]
pub struct HookKernel {
    pub pre_hooks: Vec<String>,
    pub post_hooks: Vec<String>,
    pub latest_report: HookReport,
}

impl HookKernel {
    /// A kernel with the hooks of `config` and an empty report.
    pub fn new(config: RuntimeHookConfig) -> (k: Self)
        ensures
            k.pre_hooks == config.pre_hooks,
            k.post_hooks == config.post_hooks,
            k.latest_report.issues@.len() == 0,
    {
        HookKernel { pre_hooks: config.pre_hooks, post_hooks: config.post_hooks, latest_report: HookReport::default() }
    }

    /// True when some hook is registered.
    pub fn is_enabled(&self) -> (r: bool)
        ensures
            r == (self.pre_hooks@.len() > 0 || self.post_hooks@.len() > 0),
    {
        self.pre_hooks.len() > 0 || self.post_hooks.len() > 0
    }

    /// Registers more hooks; a name already registered is skipped.
    pub fn register(&mut self, config: RuntimeHookConfig)
        ensures
            str_views(final(self).pre_hooks@) == dedup_append(str_views(old(self).pre_hooks@), str_views(config.pre_hooks@)),
            str_views(final(self).post_hooks@) == dedup_append(str_views(old(self).post_hooks@), str_views(config.post_hooks@)),
            final(self).latest_report == old(self).latest_report,
    {
        if !config.is_empty() {
            proof {
                assert(dedup_append(str_views(self.pre_hooks@), str_views(config.pre_hooks@)) == str_views(self.pre_hooks@));
                assert(dedup_append(str_views(self.post_hooks@), str_views(config.post_hooks@)) == str_views(self.post_hooks@));
            }
            return;
        }
        append_dedup(&mut self.pre_hooks, &config.pre_hooks);
        append_dedup(&mut self.post_hooks, &config.post_hooks);
    }

    /// A copy of the report of the last run.
    pub fn report_snapshot(&self) -> (r: HookReport)
        ensures
            r.issues@ == self.latest_report.issues@,
    {
        clone_report(&self.latest_report)
    }

    /// Replaces the report of the last run.
    pub fn set_latest_report(&mut self, report: HookReport)
        ensures
            final(self).latest_report == report,
            final(self).pre_hooks == old(self).pre_hooks,
            final(self).post_hooks == old(self).post_hooks,
    {
        self.latest_report = report;
    }

    /// The pre hooks of one call, in the order they run: the registered
    /// ones, then the call's own whose names are new.
    pub fn pre_hooks_for(&self, scoped: Option<&RuntimeHookConfig>) -> (r: Vec<String>)
        ensures
            str_views(r@) == match scoped {
                Some(c) => dedup_append(str_views(self.pre_hooks@), str_views(c.pre_hooks@)),
                None => str_views(self.pre_hooks@),
            },
    {
        let base = clone_names(&self.pre_hooks);
        match scoped {
            Some(c) => merge_owned_with_overlay(base, Some(&c.pre_hooks)),
            None => merge_owned_with_overlay(base, None),
        }
    }

    /// The post hooks of one call, in the order they run (see
    /// `pre_hooks_for`).
    pub fn post_hooks_for(&self, scoped: Option<&RuntimeHookConfig>) -> (r: Vec<String>)
        ensures
            str_views(r@) == match scoped {
                Some(c) => dedup_append(str_views(self.post_hooks@), str_views(c.post_hooks@)),
                None => str_views(self.post_hooks@),
            },
    {
        let base = clone_names(&self.post_hooks);
        match scoped {
            Some(c) => merge_owned_with_overlay(base, Some(&c.post_hooks)),
            None => merge_owned_with_overlay(base, None),
        }
    }
}

} // verus!
