//! Line-based patches of artifact texts: a text is a sequence of lines,
//! each keeping its `\n`; a patch replaces line ranges of the text it was
//! made for.
use vstd::prelude::*;
use crate::artifact::types::{DocEdit, DocPatch, DomainError, PatchConflict, ValidatedPatch};
use crate::digest::{compute_revision, spec_revision};
use crate::text::{chars_of, first_index_of, lemma_first_index_of, push_str, str_eq, string_from_chars};

verus! {

/// The lines of `s`, each with its `\n` (the last may lack one); no lines
/// for an empty text (`str::split_inclusive('\n')`).
pub open spec fn spec_split_lines(s: Seq<char>) -> Seq<Seq<char>>
    decreases s.len(),
{
    if s.len() == 0 {
        Seq::empty()
    } else {
        match first_index_of(s, '\n') {
            Some(i) => if 0 <= i < s.len() {
                seq![s.subrange(0, i + 1)] + spec_split_lines(s.subrange(i + 1, s.len() as int))
            } else {
                seq![s]
            },
            None => seq![s],
        }
    }
}

/// The lines joined back together.
pub open spec fn concat(ls: Seq<Seq<char>>) -> Seq<char>
    decreases ls.len(),
{
    if ls.len() == 0 {
        Seq::empty()
    } else {
        ls[0] + concat(ls.drop_first())
    }
}

/// Joining the lines of a text gives the text back.
pub proof fn lemma_split_concat(s: Seq<char>)
    ensures
        concat(spec_split_lines(s)) == s,
    decreases s.len(),
{
    if s.len() > 0 {
        lemma_first_index_of(s, '\n');
        match first_index_of(s, '\n') {
            Some(i) => {
                let rest = s.subrange(i + 1, s.len() as int);
                lemma_split_concat(rest);
                let ls = spec_split_lines(s);
                assert(ls == seq![s.subrange(0, i + 1)] + spec_split_lines(rest));
                assert(ls[0] == s.subrange(0, i + 1));
                assert(ls.drop_first() =~= spec_split_lines(rest));
                assert(concat(ls) == ls[0] + concat(ls.drop_first()));
                assert(s.subrange(0, i + 1) + rest =~= s);
            },
            None => {
                let ls = spec_split_lines(s);
                assert(ls == seq![s]);
                assert(ls.drop_first() =~= Seq::<Seq<char>>::empty());
                assert(concat(ls.drop_first()) == Seq::<char>::empty());
                assert(s + Seq::<char>::empty() =~= s);
            },
        }
    }
}

/// Number of lines of a text.
pub open spec fn spec_line_count(s: Seq<char>) -> nat {
    spec_split_lines(s).len()
}

/// The lines of `text` (see `spec_split_lines`).
pub fn split_lines(text: &str) -> (r: Vec<String>)
    ensures
        crate::json::str_views(r@) == spec_split_lines(text@),
{
    let cs = chars_of(text);
    let mut out: Vec<String> = Vec::new();
    let mut start: usize = 0;
    let mut i: usize = 0;
    assert(cs@.subrange(0, cs.len() as int) =~= cs@);
    while i < cs.len()
        invariant
            start <= i <= cs.len(),
            cs@ == text@,
            forall|j: int| start <= j < i ==> cs@[j] != '\n',
            crate::json::str_views(out@) + spec_split_lines(cs@.subrange(start as int, cs.len() as int)) == spec_split_lines(text@),
        decreases cs.len() - i,
    {
        if cs[i] == '\n' {
            let ghost rest = cs@.subrange(start as int, cs.len() as int);
            proof {
                lemma_first_index_of(rest, '\n');
                assert(rest[i - start] == '\n');
                assert(forall|j: int| 0 <= j < i - start ==> rest[j] != '\n');
                lemma_first_is(rest, '\n', i - start);
                assert(rest.subrange(0, i - start + 1) =~= cs@.subrange(start as int, i + 1));
                assert(rest.subrange(i - start + 1, rest.len() as int) =~= cs@.subrange(i + 1, cs.len() as int));
            }
            let line = string_from_chars(&cs, start, i + 1);
            let ghost before = out@;
            out.push(line);
            assert(crate::json::str_views(out@) =~= crate::json::str_views(before).push(cs@.subrange(start as int, i + 1)));
            start = i + 1;
        }
        i += 1;
    }
    if start < cs.len() {
        let ghost rest = cs@.subrange(start as int, cs.len() as int);
        proof {
            lemma_first_index_of(rest, '\n');
            assert(forall|j: int| 0 <= j < rest.len() ==> rest[j] != '\n');
            lemma_first_none(rest, '\n');
        }
        let line = string_from_chars(&cs, start, cs.len());
        let ghost before = out@;
        out.push(line);
        assert(crate::json::str_views(out@) =~= crate::json::str_views(before).push(rest));
        assert(spec_split_lines(rest) =~= seq![rest]);
    } else {
        assert(cs@.subrange(start as int, cs.len() as int) =~= Seq::<char>::empty());
    }
    assert(crate::json::str_views(out@) + Seq::<Seq<char>>::empty() =~= crate::json::str_views(out@));
    out
}

/// A position of `c` with no `c` before it is the first one.
proof fn lemma_first_is(s: Seq<char>, c: char, k: int)
    requires
        0 <= k < s.len(),
        s[k] == c,
        forall|j: int| 0 <= j < k ==> s[j] != c,
    ensures
        first_index_of(s, c) == Some(k),
    decreases s.len(),
{
    if k > 0 {
        assert(s[0] != c);
        assert forall|j: int| 0 <= j < k - 1 implies s.drop_first()[j] != c by {
            assert(s.drop_first()[j] == s[j + 1]);
        }
        lemma_first_is(s.drop_first(), c, k - 1);
    }
}

/// Without any `c` there is no first one.
proof fn lemma_first_none(s: Seq<char>, c: char)
    requires
        forall|j: int| 0 <= j < s.len() ==> s[j] != c,
    ensures
        first_index_of(s, c) is None,
    decreases s.len(),
{
    if s.len() > 0 {
        assert forall|j: int| 0 <= j < s.len() - 1 implies s.drop_first()[j] != c by {
            assert(s.drop_first()[j] == s[j + 1]);
        }
        lemma_first_none(s.drop_first(), c);
    }
}

/// `concat` of a sequence extended by one line.
pub proof fn lemma_concat_push(ls: Seq<Seq<char>>, x: Seq<char>)
    ensures
        concat(ls.push(x)) == concat(ls) + x,
    decreases ls.len(),
{
    let p = ls.push(x);
    if ls.len() == 0 {
        assert(p.drop_first() =~= Seq::<Seq<char>>::empty());
        assert(concat(p.drop_first()) == Seq::<char>::empty());
        assert(p[0] == x);
        assert(concat(p) == p[0] + concat(p.drop_first()));
        assert(x + Seq::<char>::empty() =~= x);
        assert(concat(ls) == Seq::<char>::empty());
        assert(Seq::<char>::empty() + x =~= x);
    } else {
        assert(p.drop_first() =~= ls.drop_first().push(x));
        lemma_concat_push(ls.drop_first(), x);
        assert(p[0] == ls[0]);
        assert(concat(p) == p[0] + concat(p.drop_first()));
        assert(concat(ls) == ls[0] + concat(ls.drop_first()));
        assert(ls[0] + (concat(ls.drop_first()) + x) =~= (ls[0] + concat(ls.drop_first())) + x);
    }
}

/// The lines joined into one string.
pub fn concat_lines(lines: &Vec<String>) -> (r: String)
    ensures
        r@ == concat(crate::json::str_views(lines@)),
{
    let ghost v = crate::json::str_views(lines@);
    let mut out = String::new();
    let mut i: usize = 0;
    assert(v.take(0) =~= Seq::<Seq<char>>::empty());
    while i < lines.len()
        invariant
            i <= lines.len(),
            v == crate::json::str_views(lines@),
            out@ == concat(v.take(i as int)),
        decreases lines.len() - i,
    {
        proof {
            assert(v.take(i + 1 as int) =~= v.take(i as int).push(v[i as int]));
            lemma_concat_push(v.take(i as int), v[i as int]);
        }
        push_str(&mut out, lines[i].as_str());
        i += 1;
    }
    assert(v.take(lines.len() as int) =~= v);
    out
}

/// Edit `e` stays inside a text of `lc` lines: it starts at line 1 or
/// later, does not end before it starts, and ends at most one past the
/// last line.
pub open spec fn range_ok(e: DocEdit, lc: nat) -> bool {
    e.start_line != 0 && e.start_line <= e.end_line && e.end_line <= lc + 1
}

/// The first `n` edits are in range, sorted by start, and do not overlap.
pub open spec fn edits_valid_upto(edits: Seq<DocEdit>, lc: nat, n: int) -> bool {
    forall|i: int| 0 <= i < n ==> #[trigger] range_ok(edits[i], lc)
        && (i > 0 ==> edits[i].start_line >= edits[i - 1].start_line && edits[i].start_line >= edits[i - 1].end_line)
}

/// Every edit is in range for `text`, and the edits are sorted and do not
/// overlap.
pub open spec fn patch_valid_for(text: Seq<char>, edits: Seq<DocEdit>) -> bool {
    edits_valid_upto(edits, spec_line_count(text), edits.len() as int)
}

/// Outcome of checking `patch` against `text`: the revision must match,
/// then the first edit that is out of range, out of order or overlapping
/// the one before is reported.
pub open spec fn validate_outcome(text: Seq<char>, patch: DocPatch, r: Result<ValidatedPatch, PatchConflict>) -> bool {
    let lc = spec_line_count(text);
    let edits = patch.edits@;
    let rev_ok = spec_revision(text) == patch.expected_revision@;
    match r {
        Ok(v) => rev_ok && patch_valid_for(text, edits) && v.edits@ == edits,
        Err(PatchConflict::RevisionMismatch { expected, actual }) =>
            !rev_ok && expected@ == patch.expected_revision@ && actual@ == spec_revision(text),
        Err(PatchConflict::InvalidRange { index, start_line, end_line, line_count }) => {
            &&& rev_ok
            &&& index < edits.len()
            &&& edits_valid_upto(edits, lc, index as int)
            &&& !range_ok(edits[index as int], lc)
            &&& start_line == edits[index as int].start_line
            &&& end_line == edits[index as int].end_line
            &&& line_count == lc
        },
        Err(PatchConflict::NotSorted { index, prev_start, start }) => {
            &&& rev_ok
            &&& 0 < index < edits.len()
            &&& edits_valid_upto(edits, lc, index as int)
            &&& range_ok(edits[index as int], lc)
            &&& edits[index as int].start_line < edits[index - 1].start_line
            &&& prev_start == edits[index - 1].start_line
            &&& start == edits[index as int].start_line
        },
        Err(PatchConflict::Overlap { index, prev_end, start }) => {
            &&& rev_ok
            &&& 0 < index < edits.len()
            &&& edits_valid_upto(edits, lc, index as int)
            &&& range_ok(edits[index as int], lc)
            &&& edits[index as int].start_line >= edits[index - 1].start_line
            &&& edits[index as int].start_line < edits[index - 1].end_line
            &&& prev_end == edits[index - 1].end_line
            &&& start == edits[index as int].start_line
        },
    }
}

/// A copy of the edits.
fn clone_edits(edits: &Vec<DocEdit>) -> (r: Vec<DocEdit>)
    ensures
        r@ == edits@,
{
    let mut out: Vec<DocEdit> = Vec::new();
    let mut i: usize = 0;
    while i < edits.len()
        invariant
            i <= edits.len(),
            out@ == edits@.take(i as int),
        decreases edits.len() - i,
    {
        let e = DocEdit { start_line: edits[i].start_line, end_line: edits[i].end_line, replacement: edits[i].replacement.clone() };
        out.push(e);
        assert(out@ =~= edits@.take(i + 1 as int));
        i += 1;
    }
    assert(edits@.take(edits.len() as int) =~= edits@);
    out
}

/// Checks a patch against the text it is to be applied to (see
/// `validate_outcome`); on success the patch applies exactly when it is
/// valid.
pub fn validate_doc_patch(text: &str, patch: &DocPatch) -> (r: Result<ValidatedPatch, PatchConflict>)
    ensures
        validate_outcome(text@, *patch, r),
        r is Ok <==> (spec_revision(text@) == patch.expected_revision@ && patch_valid_for(text@, patch.edits@)),
{
    let current_revision = compute_revision(text);
    if !str_eq(current_revision.as_str(), patch.expected_revision.as_str()) {
        return Err(PatchConflict::RevisionMismatch {
            expected: patch.expected_revision.clone(),
            actual: current_revision,
        });
    }
    let line_count = split_lines(text).len();
    let ghost lc = spec_line_count(text@);
    assert(line_count == lc);
    let edits = &patch.edits;
    let mut prev_start: usize = 0;
    let mut prev_end: usize = 0;
    let mut index: usize = 0;
    while index < edits.len()
        invariant
            index <= edits.len(),
            edits@ == patch.edits@,
            line_count == lc,
            lc == spec_line_count(text@),
            spec_revision(text@) == patch.expected_revision@,
            edits_valid_upto(edits@, lc, index as int),
            index > 0 ==> prev_start == edits@[index - 1].start_line && prev_end == edits@[index - 1].end_line,
        decreases edits.len() - index,
    {
        let edit = &edits[index];
        let too_far = if line_count == usize::MAX { false } else { edit.end_line > line_count + 1 };
        if edit.start_line == 0 || edit.start_line > edit.end_line || too_far {
            assert(!range_ok(edits@[index as int], lc));
            assert(0 <= index < patch.edits@.len() && !range_ok(patch.edits@[index as int], lc));
            assert(!edits_valid_upto(patch.edits@, lc, patch.edits@.len() as int));
            assert(!patch_valid_for(text@, patch.edits@));
            let r = Err(PatchConflict::InvalidRange {
                index,
                start_line: edit.start_line,
                end_line: edit.end_line,
                line_count,
            });
            assert(spec_revision(text@) == patch.expected_revision@);
            assert(edits_valid_upto(patch.edits@, lc, index as int));
            assert(validate_outcome(text@, *patch, r));
            return r;
        }
        if index > 0 {
            if edit.start_line < prev_start {
                return Err(PatchConflict::NotSorted { index, prev_start, start: edit.start_line });
            }
            if edit.start_line < prev_end {
                return Err(PatchConflict::Overlap { index, prev_end, start: edit.start_line });
            }
        }
        assert(range_ok(edits@[index as int], lc));
        assert(index > 0 ==> edits@[index as int].start_line >= edits@[index - 1].start_line
            && edits@[index as int].start_line >= edits@[index - 1].end_line);
        assert forall|i: int| 0 <= i < index + 1 implies #[trigger] range_ok(edits@[i], lc)
            && (i > 0 ==> edits@[i].start_line >= edits@[i - 1].start_line && edits@[i].start_line >= edits@[i - 1].end_line) by {
            if i < index {
                assert(range_ok(edits@[i], lc));
            }
        }
        assert(edits_valid_upto(edits@, lc, index + 1));
        prev_start = edit.start_line;
        prev_end = edit.end_line;
        index += 1;
    }
    Ok(ValidatedPatch { edits: clone_edits(edits) })
}

/// `lines` with lines `s..e` replaced by `repl`.
pub open spec fn splice_lines(lines: Seq<Seq<char>>, s: int, e: int, repl: Seq<Seq<char>>) -> Seq<Seq<char>> {
    lines.subrange(0, s) + repl + lines.subrange(e, lines.len() as int)
}

/// The index of line `n` counted from one; line zero counts as the first.
pub open spec fn line_index(n: usize) -> int {
    if n == 0 { 0 } else { n - 1 }
}

/// `lines` with the edits applied, the last edit first.
pub open spec fn apply_edits(lines: Seq<Seq<char>>, edits: Seq<DocEdit>) -> Seq<Seq<char>>
    decreases edits.len(),
{
    if edits.len() == 0 {
        lines
    } else {
        let e = edits.last();
        apply_edits(
            splice_lines(lines, line_index(e.start_line), line_index(e.end_line), spec_split_lines(e.replacement@)),
            edits.drop_last(),
        )
    }
}

/// Applying the edits, the last first, each edit's range lies within the
/// lines it is applied to.
pub open spec fn edits_applicable(lines: Seq<Seq<char>>, edits: Seq<DocEdit>) -> bool
    decreases edits.len(),
{
    if edits.len() == 0 {
        true
    } else {
        let e = edits.last();
        &&& line_index(e.start_line) <= line_index(e.end_line) <= lines.len()
        &&& edits_applicable(
            splice_lines(lines, line_index(e.start_line), line_index(e.end_line), spec_split_lines(e.replacement@)),
            edits.drop_last(),
        )
    }
}

/// Edits that are in range, sorted and not overlapping can be applied to
/// lines that reach the end of the last one's range.
proof fn lemma_valid_edits_applicable(lines: Seq<Seq<char>>, edits: Seq<DocEdit>, lc: nat)
    requires
        edits_valid_upto(edits, lc, edits.len() as int),
        edits.len() > 0 ==> edits.last().end_line - 1 <= lines.len(),
    ensures
        edits_applicable(lines, edits),
    decreases edits.len(),
{
    if edits.len() > 0 {
        let n = edits.len() - 1;
        let e = edits.last();
        assert(range_ok(edits[n as int], lc));
        let next = splice_lines(lines, line_index(e.start_line), line_index(e.end_line), spec_split_lines(e.replacement@));
        let rest = edits.drop_last();
        assert forall|i: int| 0 <= i < rest.len() implies #[trigger] range_ok(rest[i], lc)
            && (i > 0 ==> rest[i].start_line >= rest[i - 1].start_line && rest[i].start_line >= rest[i - 1].end_line) by {
            assert(range_ok(edits[i], lc));
        }
        if n > 0 {
            assert(range_ok(edits[n - 1], lc));
            assert(next.len() >= e.start_line - 1);
        }
        lemma_valid_edits_applicable(next, rest, lc);
    }
}

/// Edits valid for `text` can be applied to its lines.
pub proof fn lemma_valid_patch_applicable(text: Seq<char>, edits: Seq<DocEdit>)
    requires
        patch_valid_for(text, edits),
    ensures
        edits_applicable(spec_split_lines(text), edits),
{
    if edits.len() > 0 {
        assert(range_ok(edits[edits.len() - 1], spec_line_count(text)));
    }
    lemma_valid_edits_applicable(spec_split_lines(text), edits, spec_line_count(text));
}

/// The text after a valid patch: its lines with each edit's range
/// replaced by the lines of the edit's replacement, joined.
pub open spec fn spec_apply_patch(text: Seq<char>, edits: Seq<DocEdit>) -> Seq<char> {
    concat(apply_edits(spec_split_lines(text), edits))
}

/// `lines` with lines `s..e` replaced by `repl`.
fn splice_vec(lines: &Vec<String>, s: usize, e: usize, repl: &Vec<String>) -> (r: Vec<String>)
    requires
        s <= e <= lines.len(),
    ensures
        crate::json::str_views(r@) == splice_lines(crate::json::str_views(lines@), s as int, e as int, crate::json::str_views(repl@)),
{
    let mut out: Vec<String> = Vec::new();
    let ghost lv = crate::json::str_views(lines@);
    let ghost rv = crate::json::str_views(repl@);
    let mut i: usize = 0;
    while i < s
        invariant
            i <= s <= e <= lines.len(),
            lv == crate::json::str_views(lines@),
            lv.len() == lines.len(),
            crate::json::str_views(out@) == lv.subrange(0, i as int),
        decreases s - i,
    {
        let ghost before = out@;
        let c = lines[i].clone();
        out.push(c);
        assert(crate::json::str_views(out@) =~= crate::json::str_views(before).push(lv[i as int]));
        assert(lv.subrange(0, i + 1 as int) =~= lv.subrange(0, i as int).push(lv[i as int]));
        i += 1;
    }
    let mut j: usize = 0;
    while j < repl.len()
        invariant
            j <= repl.len(),
            s <= lines.len(),
            lv.len() == lines.len(),
            rv == crate::json::str_views(repl@),
            rv.len() == repl.len(),
            crate::json::str_views(out@) == lv.subrange(0, s as int) + rv.take(j as int),
        decreases repl.len() - j,
    {
        let ghost before = out@;
        let c = repl[j].clone();
        out.push(c);
        assert(crate::json::str_views(out@) =~= crate::json::str_views(before).push(rv[j as int]));
        assert(lv.subrange(0, s as int) + rv.take(j + 1 as int) =~= (lv.subrange(0, s as int) + rv.take(j as int)).push(rv[j as int]));
        j += 1;
    }
    assert(rv.take(repl.len() as int) =~= rv);
    let mut k: usize = e;
    while k < lines.len()
        invariant
            s <= e <= k <= lines.len(),
            lv == crate::json::str_views(lines@),
            lv.len() == lines.len(),
            crate::json::str_views(out@) == lv.subrange(0, s as int) + rv + lv.subrange(e as int, k as int),
        decreases lines.len() - k,
    {
        let ghost before = out@;
        let c = lines[k].clone();
        out.push(c);
        assert(crate::json::str_views(out@) =~= crate::json::str_views(before).push(lv[k as int]));
        assert(lv.subrange(0, s as int) + rv + lv.subrange(e as int, k + 1 as int) =~= (lv.subrange(0, s as int) + rv + lv.subrange(e as int, k as int)).push(lv[k as int]));
        k += 1;
    }
    out
}

/// Applies a validated patch to the text it was checked against: edits are
/// applied last to first so earlier line numbers stay put (see
/// `spec_apply_patch`).
pub fn apply_doc_patch(text: &str, validated_patch: &ValidatedPatch) -> (r: String)
    requires
        edits_applicable(spec_split_lines(text@), validated_patch.edits@),
    ensures
        r@ == spec_apply_patch(text@, validated_patch.edits@),
{
    let edits = &validated_patch.edits;
    let ghost all = edits@;
    let mut lines = split_lines(text);
    let mut k: usize = edits.len();
    assert(all.take(k as int) =~= all);
    while k > 0
        invariant
            k <= edits.len(),
            all == edits@,
            edits_applicable(crate::json::str_views(lines@), all.take(k as int)),
            apply_edits(crate::json::str_views(lines@), all.take(k as int)) == apply_edits(spec_split_lines(text@), all),
        decreases k,
    {
        let edit = &edits[k - 1];
        proof {
            assert(all.take(k as int).last() == all[k - 1]);
            assert(all.take(k as int).drop_last() =~= all.take(k - 1));
        }
        let repl = split_lines(edit.replacement.as_str());
        let s = if edit.start_line == 0 { 0 } else { edit.start_line - 1 };
        let e = if edit.end_line == 0 { 0 } else { edit.end_line - 1 };
        lines = splice_vec(&lines, s, e, &repl);
        k -= 1;
    }
    assert(all.take(0) =~= Seq::<DocEdit>::empty());
    concat_lines(&lines)
}

/// A patch with no edits leaves the text as it is.
pub proof fn lemma_empty_patch_is_identity(text: Seq<char>)
    ensures
        spec_apply_patch(text, Seq::empty()) == text,
{
    lemma_split_concat(text);
}

/// The text of a store-conflict or validation failure of a patch:
/// revision mismatches are conflicts, other problems validation errors
/// carrying the conflict's text.
pub fn map_patch_conflict(conflict: PatchConflict) -> (r: DomainError)
    ensures
        match conflict {
            PatchConflict::RevisionMismatch { expected, actual } => r == (DomainError::Conflict { expected, actual }),
            other => r matches DomainError::Validation(m) && m@ == crate::artifact::types::spec_conflict_message(other),
        },
{
    match conflict {
        PatchConflict::RevisionMismatch { expected, actual } => DomainError::Conflict { expected, actual },
        other => DomainError::Validation(other.message()),
    }
}

} // verus!
