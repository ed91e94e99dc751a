//! Artifact tasks: the prompt and turn parameters sent for a task, reading
//! structured output back, and the document changes a task makes.
use vstd::prelude::*;
use crate::api_types::{spec_effort_wire, ReasoningEffort, DEFAULT_REASONING_EFFORT};
use crate::artifact::patch::{apply_doc_patch, lemma_valid_patch_applicable, map_patch_conflict, patch_valid_for, spec_apply_patch, validate_doc_patch, validate_outcome};
use crate::artifact::types::{
    ArtifactMeta, ArtifactStore, ArtifactTaskKind, ArtifactTaskSpec, DocPatch, DomainError, SaveMeta, StoreErr,
};
use crate::digest::{compute_revision, spec_revision};
use crate::json::{
    clone_json, json_same, push_member, push_str_member, spec_get, str_member, str_views, JsonValue,
};
use crate::text::{
    chars_of, has_prefix, is_blank, last_char, owned, push_char, push_str, str_starts_with, trim, trim_str,
};

verus! {

/// Lines of a bullet list: `- item` per item.
pub open spec fn bullets(items: Seq<Seq<char>>) -> Seq<char>
    decreases items.len(),
{
    if items.len() == 0 {
        Seq::empty()
    } else {
        bullets(items.drop_last()) + "- "@ + items.last() + "\n"@
    }
}

/// The prompt of an artifact task: role, goal (trimmed), constraints (or
/// `- none`), format and revision, examples when there are any, and the
/// current text between markers, ending with a line break.
pub open spec fn spec_turn_prompt(goal: Seq<char>, constraints: Seq<Seq<char>>, examples: Seq<Seq<char>>,
    format: Seq<char>, revision: Seq<char>, current_text: Seq<char>) -> Seq<char>
{
    "ROLE:\n"@
        + "You are a documentation/rules engine. Do NOT use tools. Output JSON matching the schema only.\n\n"@
        + "GOAL:\n"@ + trim(goal) + "\n\n"@
        + "CONSTRAINTS:\n"@ + (if constraints.len() == 0 { "- none\n"@ } else { bullets(constraints) }) + "\n"@
        + "CONTEXT:\n"@ + "FORMAT: "@ + format + "\n"@ + "REVISION: "@ + revision + "\n"@
        + (if examples.len() == 0 { Seq::<char>::empty() } else { "EXAMPLES:\n"@ + bullets(examples) })
        + "CURRENT_TEXT_BEGIN\n"@ + current_text
        + (if current_text.len() > 0 && current_text.last() == '\n' { Seq::<char>::empty() } else { "\n"@ })
        + "CURRENT_TEXT_END\n"@
}

/// Appends `- item` lines.
fn push_bullets(out: &mut String, items: &Vec<String>)
    ensures
        final(out)@ == old(out)@ + bullets(str_views(items@)),
{
    let ghost start = out@;
    let ghost v = str_views(items@);
    let mut i: usize = 0;
    assert(v.take(0) =~= Seq::<Seq<char>>::empty());
    assert(start + Seq::<char>::empty() =~= start);
    while i < items.len()
        invariant
            i <= items.len(),
            v == str_views(items@),
            out@ == start + bullets(v.take(i as int)),
        decreases items.len() - i,
    {
        assert(v.take(i + 1 as int).drop_last() =~= v.take(i as int));
        assert(v.take(i + 1 as int).last() == items@[i as int]@);
        push_str(out, "- ");
        push_str(out, items[i].as_str());
        push_str(out, "\n");
        assert(out@ =~= start + bullets(v.take(i + 1 as int)));
        i += 1;
    }
    assert(v.take(items.len() as int) =~= v);
}

/// The prompt of an artifact task (see `spec_turn_prompt`).
pub fn build_turn_prompt(spec: &ArtifactTaskSpec, format: &str, revision: &str, current_text: &str) -> (r: String)
    ensures
        r@ == spec_turn_prompt(spec.user_goal@, str_views(spec.constraints@), str_views(spec.examples@),
            format@, revision@, current_text@),
{
    let mut prompt = String::new();
    push_str(&mut prompt, "ROLE:\n");
    push_str(&mut prompt, "You are a documentation/rules engine. Do NOT use tools. Output JSON matching the schema only.\n\n");
    push_str(&mut prompt, "GOAL:\n");
    push_str(&mut prompt, trim_str(spec.user_goal.as_str()));
    push_str(&mut prompt, "\n\n");
    push_str(&mut prompt, "CONSTRAINTS:\n");
    if spec.constraints.len() == 0 {
        push_str(&mut prompt, "- none\n");
    } else {
        push_bullets(&mut prompt, &spec.constraints);
    }
    push_str(&mut prompt, "\n");
    push_str(&mut prompt, "CONTEXT:\n");
    push_str(&mut prompt, "FORMAT: ");
    push_str(&mut prompt, format);
    push_str(&mut prompt, "\n");
    push_str(&mut prompt, "REVISION: ");
    push_str(&mut prompt, revision);
    push_str(&mut prompt, "\n");
    let ghost before_examples = prompt@;
    if spec.examples.len() > 0 {
        push_str(&mut prompt, "EXAMPLES:\n");
        push_bullets(&mut prompt, &spec.examples);
    } else {
        assert(prompt@ + Seq::<char>::empty() =~= prompt@);
    }
    push_str(&mut prompt, "CURRENT_TEXT_BEGIN\n");
    push_str(&mut prompt, current_text);
    let ends_with_newline = match last_char(current_text) {
        Some(c) => c == '\n',
        None => false,
    };
    if !ends_with_newline {
        push_str(&mut prompt, "\n");
    } else {
        assert(prompt@ + Seq::<char>::empty() =~= prompt@);
    }
    push_str(&mut prompt, "CURRENT_TEXT_END\n");
    prompt
}

/// `f` holds `threadId`, a single text input with the prompt, approval
/// `never`, a read-only sandbox, the model when given, the effort (medium
/// by default), the summary when given, and the output schema.
pub open spec fn artifact_turn_wire(thread_id: Seq<char>, prompt: Seq<char>, spec: ArtifactTaskSpec, f: Seq<(String, JsonValue)>) -> bool {
    let i_effort = 4 + (if spec.model is Some { 1int } else { 0int });
    let i_schema = i_effort + 1 + (if spec.summary is Some { 1int } else { 0int });
    let effort = match spec.effort { Some(e) => e, None => ReasoningEffort::Medium };
    &&& f.len() == i_schema + 1
    &&& str_member(f, 0, "threadId"@, thread_id)
    &&& f[1].0@ == "input"@
    &&& f[1].1 matches JsonValue::Array(items)
    &&& items@.len() == 1
    &&& items@[0] matches JsonValue::Object(item)
    &&& item@.len() == 2
    &&& str_member(item@, 0, "type"@, "text"@)
    &&& str_member(item@, 1, "text"@, prompt)
    &&& str_member(f, 2, "approvalPolicy"@, "never"@)
    &&& f[3].0@ == "sandboxPolicy"@
    &&& f[3].1 matches JsonValue::Object(sb)
    &&& sb@.len() == 1
    &&& str_member(sb@, 0, "type"@, "readOnly"@)
    &&& spec.model matches Some(m) ==> str_member(f, 4, "model"@, m@)
    &&& str_member(f, i_effort, "effort"@, spec_effort_wire(effort))
    &&& spec.summary matches Some(s) ==> str_member(f, i_effort + 1, "summary"@, s@)
    &&& f[i_schema].0@ == "outputSchema"@
    &&& json_same(f[i_schema].1, spec.output_schema)
}

/// Turn parameters of an artifact task, with its fixed safe policy (see
/// `artifact_turn_wire`).
pub fn build_turn_start_params(thread_id: &str, prompt: &str, spec: &ArtifactTaskSpec) -> (r: JsonValue)
    ensures
        r matches JsonValue::Object(f) && artifact_turn_wire(thread_id@, prompt@, *spec, f@),
{
    let mut params: Vec<(String, JsonValue)> = Vec::new();
    push_str_member(&mut params, "threadId", thread_id);
    let mut item: Vec<(String, JsonValue)> = Vec::new();
    push_str_member(&mut item, "type", "text");
    push_str_member(&mut item, "text", prompt);
    let mut input: Vec<JsonValue> = Vec::new();
    input.push(JsonValue::Object(item));
    push_member(&mut params, "input", JsonValue::Array(input));
    push_str_member(&mut params, "approvalPolicy", "never");
    let mut sandbox: Vec<(String, JsonValue)> = Vec::new();
    push_str_member(&mut sandbox, "type", "readOnly");
    push_member(&mut params, "sandboxPolicy", JsonValue::Object(sandbox));
    let ghost s4 = params@;
    match &spec.model {
        Some(m) => push_str_member(&mut params, "model", m.as_str()),
        None => {},
    }
    let ghost s5 = params@;
    let effort = match spec.effort {
        Some(e) => e,
        None => DEFAULT_REASONING_EFFORT,
    };
    push_str_member(&mut params, "effort", effort.as_wire());
    let ghost s6 = params@;
    match &spec.summary {
        Some(s) => push_str_member(&mut params, "summary", s.as_str()),
        None => {},
    }
    let ghost s7 = params@;
    push_member(&mut params, "outputSchema", clone_json(&spec.output_schema));
    proof {
        assert(forall|i: int| 0 <= i < s7.len() ==> params@[i] == s7[i]);
        assert(forall|i: int| 0 <= i < s6.len() ==> s7[i] == s6[i]);
        assert(forall|i: int| 0 <= i < s5.len() ==> s6[i] == s5[i]);
        assert(forall|i: int| 0 <= i < s4.len() ==> s5[i] == s4[i]);
    }
    JsonValue::Object(params)
}

/// The lines of `s` as `str::lines` gives them: split at `\n`, a trailing
/// `\r` dropped from each line, no final empty line.
pub open spec fn spec_lines(s: Seq<char>) -> Seq<Seq<char>>
    decreases s.len(),
{
    if s.len() == 0 {
        Seq::empty()
    } else {
        match crate::text::first_index_of(s, '\n') {
            Some(i) => if 0 <= i < s.len() {
                seq![strip_cr(s.subrange(0, i))] + spec_lines(s.subrange(i + 1, s.len() as int))
            } else {
                seq![strip_cr(s)]
            },
            None => seq![strip_cr(s)],
        }
    }
}

/// `s` without one trailing `\r`.
pub open spec fn strip_cr(s: Seq<char>) -> Seq<char> {
    if s.len() > 0 && s.last() == '\r' { s.drop_last() } else { s }
}

/// The lines from index `i` up to the next line starting with a fence,
/// joined with `\n` and appended to `acc`.
pub open spec fn fenced_body_from(lines: Seq<Seq<char>>, i: int, acc: Seq<char>) -> Seq<char>
    decreases lines.len() - i,
{
    if i < 0 || i >= lines.len() || has_prefix(lines[i], "```"@) {
        acc
    } else {
        fenced_body_from(lines, i + 1, if acc.len() > 0 { acc.push('\n') + lines[i] } else { acc + lines[i] })
    }
}

/// The content of a fenced block at the start of `text`: the lines after
/// the opening fence up to the closing one; `None` when `text` does not
/// start with a fence or the block is empty.
pub open spec fn spec_fenced_json(text: Seq<char>) -> Option<Seq<char>> {
    let lines = spec_lines(text);
    if !has_prefix(text, "```"@) || lines.len() == 0 || !has_prefix(lines[0], "```"@) {
        None
    } else {
        let body = fenced_body_from(lines, 1, Seq::empty());
        if body.len() == 0 { None } else { Some(body) }
    }
}

/// Appends each line of `s` (see `spec_lines`).
fn lines_of(s: &str) -> (r: Vec<String>)
    ensures
        str_views(r@) == spec_lines(s@),
{
    let cs = chars_of(s);
    let mut out: Vec<String> = Vec::new();
    let mut start: usize = 0;
    let mut i: usize = 0;
    assert(cs@.subrange(0, cs.len() as int) =~= cs@);
    while i < cs.len()
        invariant
            start <= i <= cs.len(),
            cs@ == s@,
            forall|j: int| start <= j < i ==> cs@[j] != '\n',
            str_views(out@) + spec_lines(cs@.subrange(start as int, cs.len() as int)) == spec_lines(s@),
        decreases cs.len() - i,
    {
        if cs[i] == '\n' {
            let ghost rest = cs@.subrange(start as int, cs.len() as int);
            proof {
                crate::text::lemma_first_index_of(rest, '\n');
                lemma_first_newline(rest, i - start);
                assert(rest.subrange(0, i - start) =~= cs@.subrange(start as int, i as int));
                assert(rest.subrange(i - start + 1, rest.len() as int) =~= cs@.subrange(i + 1, cs.len() as int));
            }
            let line = strip_cr_string(&cs, start, i);
            let ghost before = out@;
            out.push(line);
            assert(str_views(out@) =~= str_views(before).push(strip_cr(cs@.subrange(start as int, i as int))));
            start = i + 1;
        }
        i += 1;
    }
    if start < cs.len() {
        let ghost rest = cs@.subrange(start as int, cs.len() as int);
        proof {
            lemma_no_newline(rest);
        }
        let line = strip_cr_string(&cs, start, cs.len());
        let ghost before = out@;
        out.push(line);
        assert(str_views(out@) =~= str_views(before).push(strip_cr(rest)));
        assert(spec_lines(rest) =~= seq![strip_cr(rest)]);
    } else {
        assert(cs@.subrange(start as int, cs.len() as int) =~= Seq::<char>::empty());
    }
    assert(str_views(out@) + Seq::<Seq<char>>::empty() =~= str_views(out@));
    out
}

/// `cs[from..to]` without a trailing `\r`.
fn strip_cr_string(cs: &Vec<char>, from: usize, to: usize) -> (r: String)
    requires
        from <= to <= cs.len(),
    ensures
        r@ == strip_cr(cs@.subrange(from as int, to as int)),
{
    let end = if to > from && cs[to - 1] == '\r' { to - 1 } else { to };
    let r = crate::text::string_from_chars(cs, from, end);
    assert(cs@.subrange(from as int, to as int).len() > 0 && cs@.subrange(from as int, to as int).last() == '\r'
        ==> cs@.subrange(from as int, to as int).drop_last() =~= cs@.subrange(from as int, end as int));
    r
}

/// A position of `\n` with none before it is the first one.
proof fn lemma_first_newline(s: Seq<char>, k: int)
    requires
        0 <= k < s.len(),
        s[k] == '\n',
        forall|j: int| 0 <= j < k ==> s[j] != '\n',
    ensures
        crate::text::first_index_of(s, '\n') == Some(k),
    decreases s.len(),
{
    if k > 0 {
        assert forall|j: int| 0 <= j < k - 1 implies s.drop_first()[j] != '\n' by {
            assert(s.drop_first()[j] == s[j + 1]);
        }
        lemma_first_newline(s.drop_first(), k - 1);
    }
}

/// A text without `\n` has none first.
proof fn lemma_no_newline(s: Seq<char>)
    requires
        forall|j: int| 0 <= j < s.len() ==> s[j] != '\n',
    ensures
        crate::text::first_index_of(s, '\n') is None,
    decreases s.len(),
{
    if s.len() > 0 {
        assert forall|j: int| 0 <= j < s.len() - 1 implies s.drop_first()[j] != '\n' by {
            assert(s.drop_first()[j] == s[j + 1]);
        }
        lemma_no_newline(s.drop_first());
    }
}

/// The content of a fenced block at the start of `text` (see
/// `spec_fenced_json`).
pub fn extract_fenced_json(text: &str) -> (r: Option<String>)
    ensures
        match spec_fenced_json(text@) {
            Some(b) => r matches Some(s) && s@ == b,
            None => r is None,
        },
{
    if !str_starts_with(text, "```") {
        return None;
    }
    let lines = lines_of(text);
    let ghost lv = str_views(lines@);
    if lines.len() == 0 {
        return None;
    }
    if !str_starts_with(lines[0].as_str(), "```") {
        return None;
    }
    let mut out = String::new();
    let mut i: usize = 1;
    while i < lines.len()
        invariant
            1 <= i <= lines.len(),
            lv == str_views(lines@),
            fenced_body_from(lv, 1, Seq::empty()) == fenced_body_from(lv, i as int, out@),
        ensures
            fenced_body_from(lv, 1, Seq::empty()) == out@,
        decreases lines.len() - i,
    {
        if str_starts_with(lines[i].as_str(), "```") {
            assert(has_prefix(lv[i as int], "```"@));
            break;
        }
        if !out.as_str().is_empty() {
            push_char(&mut out, '\n');
        }
        push_str(&mut out, lines[i].as_str());
        i += 1;
    }
    if out.as_str().is_empty() {
        None
    } else {
        Some(out)
    }
}

/// `value` is an object holding every key of `keys`.
pub open spec fn spec_has_required_keys(value: JsonValue, keys: Seq<Seq<char>>) -> bool {
    value is Object && forall|i: int| 0 <= i < keys.len() ==> spec_get(value, #[trigger] keys[i]) is Some
}

/// True when `value` is an object holding every key of `keys`.
pub fn has_required_keys(value: &JsonValue, keys: &Vec<&str>) -> (r: bool)
    ensures
        r == spec_has_required_keys(*value, keys@.map_values(|k: &str| k@)),
{
    if !value.is_object() {
        return false;
    }
    let ghost ks = keys@.map_values(|k: &str| k@);
    let mut i: usize = 0;
    while i < keys.len()
        invariant
            i <= keys.len(),
            ks == keys@.map_values(|k: &str| k@),
            forall|j: int| 0 <= j < i ==> spec_get(*value, #[trigger] ks[j]) is Some,
        decreases keys.len() - i,
    {
        if value.get(keys[i]).is_none() {
            assert(spec_get(*value, ks[i as int]) is None);
            return false;
        }
        i += 1;
    }
    true
}

/// The text of a stored artifact, or nothing when it does not exist yet.
pub fn loaded_text_or_empty(loaded: Result<String, StoreErr>) -> (r: Result<String, StoreErr>)
    ensures
        match loaded {
            Ok(t) => r == Ok::<String, StoreErr>(t),
            Err(StoreErr::NotFound(_)) => r matches Ok(t) && t@.len() == 0,
            Err(e) => r == Err::<String, StoreErr>(e),
        },
{
    match loaded {
        Ok(t) => Ok(t),
        Err(StoreErr::NotFound(_)) => Ok(String::new()),
        Err(e) => Err(e),
    }
}

/// Metadata of an artifact whose text has revision `actual_revision`: the
/// stored metadata with its revision brought up to date, or, when there is
/// none, a markdown artifact titled by its id; other store errors pass on.
pub fn meta_or_default(artifact_id: &str, actual_revision: String, stored: Result<ArtifactMeta, StoreErr>) -> (r: Result<ArtifactMeta, StoreErr>)
    ensures
        match stored {
            Ok(m) => r matches Ok(x) && x.title == m.title && x.format == m.format
                && x.runtime_thread_id == m.runtime_thread_id && x.revision == actual_revision,
            Err(StoreErr::NotFound(_)) => r matches Ok(x) && x.title@ == artifact_id@ && x.format@ == "markdown"@
                && x.revision == actual_revision && x.runtime_thread_id is None,
            Err(e) => r == Err::<ArtifactMeta, StoreErr>(e),
        },
{
    match stored {
        Ok(m) => {
            let mut meta = m;
            meta.revision = actual_revision;
            Ok(meta)
        },
        Err(StoreErr::NotFound(_)) => Ok(ArtifactMeta {
            title: owned(artifact_id),
            format: owned("markdown"),
            revision: actual_revision,
            runtime_thread_id: None,
        }),
        Err(e) => Err(e),
    }
}

/// What reading an artifact's metadata gives from the store's answers: a
/// load error other than `NotFound` passes on; otherwise the text is the
/// loaded one, or empty when there is none, and the metadata is the stored
/// metadata with that text's revision, or a markdown artifact titled by
/// its id when none is stored; other errors of the metadata read pass on.
pub open spec fn spec_meta_from_store(
    artifact_id: Seq<char>,
    loaded: Result<String, StoreErr>,
    stored: Result<ArtifactMeta, StoreErr>,
    r: Result<ArtifactMeta, StoreErr>,
) -> bool {
    if loaded is Err && !(loaded->Err_0 is NotFound) {
        r == Err::<ArtifactMeta, StoreErr>(loaded->Err_0)
    } else {
        let t = match loaded {
            Ok(t) => t@,
            Err(_) => Seq::<char>::empty(),
        };
        match stored {
            Ok(m) => r matches Ok(x) && x.title == m.title && x.format == m.format
                && x.runtime_thread_id == m.runtime_thread_id && x.revision@ == spec_revision(t),
            Err(StoreErr::NotFound(_)) => r matches Ok(x) && x.title@ == artifact_id && x.format@ == "markdown"@
                && x.revision@ == spec_revision(t) && x.runtime_thread_id is None,
            Err(e) => r == Err::<ArtifactMeta, StoreErr>(e),
        }
    }
}

/// Metadata of an artifact from the store's answers to `load_text` and
/// `get_meta` (see `spec_meta_from_store`).
pub fn meta_from_store_results(
    artifact_id: &str,
    loaded: Result<String, StoreErr>,
    stored: Result<ArtifactMeta, StoreErr>,
) -> (r: Result<ArtifactMeta, StoreErr>)
    ensures
        spec_meta_from_store(artifact_id@, loaded, stored, r),
{
    let text = match loaded_text_or_empty(loaded) {
        Ok(t) => t,
        Err(e) => return Err(e),
    };
    let revision = compute_revision(text.as_str());
    meta_or_default(artifact_id, revision, stored)
}

/// Metadata of an artifact read from a store: the text is loaded first,
/// and a load error other than `NotFound` passes on before the metadata is
/// read; then the answers are combined as `meta_from_store_results` does.
/// What the store answers is the store's to decide.
pub fn load_or_default_meta<S: ArtifactStore>(store: &S, artifact_id: &str) -> (r: Result<ArtifactMeta, StoreErr>)
    ensures
        exists|loaded: Result<String, StoreErr>, stored: Result<ArtifactMeta, StoreErr>|
            #[trigger] spec_meta_from_store(artifact_id@, loaded, stored, r),
        r matches Err(e) ==> !(e is NotFound),
{
    let loaded = store.load_text(artifact_id);
    match &loaded {
        Err(StoreErr::NotFound(_)) => {},
        Err(_) => {
            let r = meta_from_store_results(artifact_id, loaded, Err(StoreErr::NotFound(String::new())));
            return r;
        },
        Ok(_) => {},
    }
    let stored = store.get_meta(artifact_id);
    meta_from_store_results(artifact_id, loaded, stored)
}

/// The text and revision after an edit task: the patch is checked against
/// the stored text and applied; a revision mismatch is a conflict, other
/// problems validation errors.
pub fn plan_doc_edit(persisted_text: &str, patch: &DocPatch) -> (r: Result<(String, String), DomainError>)
    ensures
        match r {
            Ok((text, rev)) => spec_revision(persisted_text@) == patch.expected_revision@
                && patch_valid_for(persisted_text@, patch.edits@)
                && text@ == spec_apply_patch(persisted_text@, patch.edits@)
                && rev@ == spec_revision(text@),
            Err(DomainError::Conflict { expected, actual }) => spec_revision(persisted_text@) != patch.expected_revision@
                && expected@ == patch.expected_revision@ && actual@ == spec_revision(persisted_text@),
            Err(DomainError::Validation(_)) => spec_revision(persisted_text@) == patch.expected_revision@
                && !patch_valid_for(persisted_text@, patch.edits@),
            Err(_) => false,
        },
{
    let validated = match validate_doc_patch(persisted_text, patch) {
        Ok(v) => v,
        Err(conflict) => return Err(map_patch_conflict(conflict)),
    };
    proof { lemma_valid_patch_applicable(persisted_text@, validated.edits@); }
    let new_text = apply_doc_patch(persisted_text, &validated);
    let new_revision = compute_revision(new_text.as_str());
    Ok((new_text, new_revision))
}

/// The record of saving `next_revision` over `previous_revision` by a task.
pub fn save_meta_for(kind: ArtifactTaskKind, thread_id: &str, turn_id: &Option<String>, previous_revision: &str, next_revision: &str) -> (r: SaveMeta)
    ensures
        r.task_kind == kind,
        r.thread_id@ == thread_id@,
        r.turn_id == *turn_id,
        r.previous_revision matches Some(p) && p@ == previous_revision@,
        r.next_revision@ == next_revision@,
{
    SaveMeta {
        task_kind: kind,
        thread_id: owned(thread_id),
        turn_id: match turn_id {
            Some(t) => Some(t.clone()),
            None => None,
        },
        previous_revision: Some(owned(previous_revision)),
        next_revision: owned(next_revision),
    }
}

} // verus!
