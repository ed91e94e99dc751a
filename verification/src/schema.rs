//! Checks of the protocol schema bundle: required metadata fields, and the
//! SHA-256 manifest of the schema files.
use vstd::prelude::*;
use crate::digest::{sha256_hex, spec_sha256_hex};
use crate::json::{
    chars_lex_le, lex_le, opt_as_str, spec_as_str, spec_get, spec_non_blank_str, JsonValue,
};
use crate::text::{chars_of, is_blank, owned, push_char, push_str, str_eq, str_is_blank, trim, trim_str};

verus! {

/// One schema file: its path relative to the schema root and its bytes.
#[derive(Clone, Debug, PartialEq, Eq)]
pub struct ManifestFile {
    pub relative_path: String,
    pub bytes: Vec<u8>,
}

/// Required metadata of a schema bundle.
#[derive(Clone, Debug, PartialEq, Eq)]
pub struct MetadataFields {
    pub schema_name: String,
    pub generated_at_utc: String,
    pub generator_command: String,
    pub source_of_truth: String,
}

/// The manifest does not describe the files.
#[derive(Clone, Copy, Debug, PartialEq, Eq, Structural)]
pub enum ManifestMismatch {
    Mismatch,
}

/// Why schema metadata is refused.
#[derive(Clone, Debug, PartialEq, Eq)]
pub enum MetadataValidationError {
    InvalidJson(String),
    MissingField(&'static str),
    EmptyField(&'static str),
}

/// Outcome of reading required string `key` of `json`.
pub open spec fn required_string_outcome(json: JsonValue, key: Seq<char>, r: Result<String, MetadataValidationError>) -> bool {
    match spec_as_str(spec_get(json, key)) {
        None => r matches Err(MetadataValidationError::MissingField(k)) && k@ == key,
        Some(v) => if is_blank(v) {
            r matches Err(MetadataValidationError::EmptyField(k)) && k@ == key
        } else {
            r matches Ok(s) && s@ == v
        },
    }
}

/// Reads the required non-blank string `key` of `json`.
pub fn required_non_empty_string(json: &JsonValue, key: &'static str) -> (r: Result<String, MetadataValidationError>)
    ensures
        required_string_outcome(*json, key@, r),
{
    let value = match opt_as_str(json.get(key)) {
        Some(v) => v,
        None => return Err(MetadataValidationError::MissingField(key)),
    };
    if str_is_blank(value) {
        return Err(MetadataValidationError::EmptyField(key));
    }
    Ok(owned(value))
}

/// Reads the four required metadata fields of the metadata document, in the
/// order `schemaName`, `generatedAtUtc`, `generatorCommand`,
/// `sourceOfTruth`; the first missing or blank one is reported.
pub fn validate_metadata_fields(json: &JsonValue) -> (r: Result<MetadataFields, MetadataValidationError>)
    ensures
        match r {
            Ok(f) => required_string_outcome(*json, "schemaName"@, Ok(f.schema_name))
                && required_string_outcome(*json, "generatedAtUtc"@, Ok(f.generated_at_utc))
                && required_string_outcome(*json, "generatorCommand"@, Ok(f.generator_command))
                && required_string_outcome(*json, "sourceOfTruth"@, Ok(f.source_of_truth)),
            Err(e) => {
                ||| required_string_outcome(*json, "schemaName"@, Err(e))
                ||| (spec_non_blank_str(spec_get(*json, "schemaName"@))
                    && required_string_outcome(*json, "generatedAtUtc"@, Err(e)))
                ||| (spec_non_blank_str(spec_get(*json, "schemaName"@))
                    && spec_non_blank_str(spec_get(*json, "generatedAtUtc"@))
                    && required_string_outcome(*json, "generatorCommand"@, Err(e)))
                ||| (spec_non_blank_str(spec_get(*json, "schemaName"@))
                    && spec_non_blank_str(spec_get(*json, "generatedAtUtc"@))
                    && spec_non_blank_str(spec_get(*json, "generatorCommand"@))
                    && required_string_outcome(*json, "sourceOfTruth"@, Err(e)))
            },
        },
{
    let schema_name = required_non_empty_string(json, "schemaName")?;
    let generated_at_utc = required_non_empty_string(json, "generatedAtUtc")?;
    let generator_command = required_non_empty_string(json, "generatorCommand")?;
    let source_of_truth = required_non_empty_string(json, "sourceOfTruth")?;
    Ok(MetadataFields { schema_name, generated_at_utc, generator_command, source_of_truth })
}

/// A manifest line: the digest, two spaces, the path.
pub open spec fn manifest_line(path: Seq<char>, digest: Seq<char>) -> Seq<char> {
    digest + "  "@ + path
}

/// Inserts `(p, d)` after every entry whose path is `<= p` (stable).
pub open spec fn insert_by_path(s: Seq<(Seq<char>, Seq<char>)>, x: (Seq<char>, Seq<char>)) -> Seq<(Seq<char>, Seq<char>)>
    decreases s.len(),
{
    if s.len() == 0 {
        seq![x]
    } else if lex_le(s[0].0, x.0) {
        seq![s[0]] + insert_by_path(s.drop_first(), x)
    } else {
        seq![x] + s
    }
}

/// Entries sorted by path, keeping the order of equal paths.
pub open spec fn sort_by_path(s: Seq<(Seq<char>, Seq<char>)>) -> Seq<(Seq<char>, Seq<char>)>
    decreases s.len(),
{
    if s.len() == 0 {
        s
    } else {
        insert_by_path(sort_by_path(s.drop_last()), s.last())
    }
}

/// Path and hex digest of each file.
pub open spec fn hashed_files(files: Seq<ManifestFile>) -> Seq<(Seq<char>, Seq<char>)> {
    files.map_values(|f: ManifestFile| (f.relative_path@, spec_sha256_hex(f.bytes@)))
}

/// Manifest lines joined with `\n`.
pub open spec fn join_lines(s: Seq<(Seq<char>, Seq<char>)>) -> Seq<char>
    decreases s.len(),
{
    if s.len() == 0 {
        Seq::empty()
    } else if s.len() == 1 {
        manifest_line(s[0].0, s[0].1)
    } else {
        join_lines(s.drop_last()) + "\n"@ + manifest_line(s.last().0, s.last().1)
    }
}

/// The manifest of `files`: a line per file, sorted by path.
pub open spec fn spec_manifest(files: Seq<ManifestFile>) -> Seq<char> {
    join_lines(sort_by_path(hashed_files(files)))
}

/// `s` with every `\r\n` replaced by `\n`.
pub open spec fn crlf_to_lf(s: Seq<char>) -> Seq<char>
    decreases s.len(),
{
    if s.len() == 0 {
        s
    } else if s.len() >= 2 && s[0] == '\r' && s[1] == '\n' {
        seq!['\n'] + crlf_to_lf(s.subrange(2, s.len() as int))
    } else {
        seq![s[0]] + crlf_to_lf(s.drop_first())
    }
}

/// A text compared as a manifest: trimmed, with `\r\n` line breaks as `\n`.
pub open spec fn normalize_newline(s: Seq<char>) -> Seq<char> {
    crlf_to_lf(trim(s))
}

/// `s` with every `\r\n` replaced by `\n` (see `crlf_to_lf`).
fn replace_crlf(s: &str) -> (r: String)
    ensures
        r@ == crlf_to_lf(s@),
{
    let cs = chars_of(s);
    let mut out = String::new();
    let mut i: usize = 0;
    assert(cs@.subrange(0, cs.len() as int) =~= cs@);
    while i < cs.len()
        invariant
            i <= cs.len(),
            cs@ == s@,
            out@ + crlf_to_lf(cs@.subrange(i as int, cs.len() as int)) == crlf_to_lf(s@),
        decreases cs.len() - i,
    {
        let ghost rest = cs@.subrange(i as int, cs.len() as int);
        if i + 1 < cs.len() && cs[i] == '\r' && cs[i + 1] == '\n' {
            assert(rest.subrange(2, rest.len() as int) =~= cs@.subrange(i + 2, cs.len() as int));
            assert(out@.push('\n') + crlf_to_lf(cs@.subrange(i + 2, cs.len() as int)) =~= out@ + crlf_to_lf(rest));
            push_char(&mut out, '\n');
            i += 2;
        } else {
            assert(rest.drop_first() =~= cs@.subrange(i + 1, cs.len() as int));
            assert(out@.push(cs@[i as int]) + crlf_to_lf(cs@.subrange(i + 1, cs.len() as int)) =~= out@ + crlf_to_lf(rest));
            push_char(&mut out, cs[i]);
            i += 1;
        }
    }
    assert(cs@.subrange(cs.len() as int, cs.len() as int) =~= Seq::<char>::empty());
    assert(out@ + Seq::<char>::empty() =~= out@);
    out
}

/// Pairs as plain values.
pub open spec fn pair_views(v: Seq<(String, String)>) -> Seq<(Seq<char>, Seq<char>)> {
    v.map_values(|p: (String, String)| (p.0@, p.1@))
}

/// Index at which `insert_by_path` places `x`.
pub open spec fn path_insert_pos(s: Seq<(Seq<char>, Seq<char>)>, x: (Seq<char>, Seq<char>)) -> nat
    decreases s.len(),
{
    if s.len() == 0 {
        0
    } else if lex_le(s[0].0, x.0) {
        1 + path_insert_pos(s.drop_first(), x)
    } else {
        0
    }
}

/// `insert_by_path` inserts at `path_insert_pos`.
proof fn lemma_insert_by_path(s: Seq<(Seq<char>, Seq<char>)>, x: (Seq<char>, Seq<char>))
    ensures
        path_insert_pos(s, x) <= s.len(),
        insert_by_path(s, x) == s.insert(path_insert_pos(s, x) as int, x),
    decreases s.len(),
{
    if s.len() == 0 {
        assert(s.insert(0, x) =~= seq![x]);
    } else if lex_le(s[0].0, x.0) {
        lemma_insert_by_path(s.drop_first(), x);
        assert(seq![s[0]] + s.drop_first().insert(path_insert_pos(s.drop_first(), x) as int, x)
            =~= s.insert(path_insert_pos(s, x) as int, x));
    } else {
        assert(seq![x] + s =~= s.insert(0, x));
    }
}

/// Inserts `x` after every entry whose path is `<= x`'s.
fn insert_pair_sorted(v: &mut Vec<(String, String)>, x: (String, String))
    ensures
        pair_views(final(v)@) == insert_by_path(pair_views(old(v)@), (x.0@, x.1@)),
{
    let ghost vs = pair_views(v@);
    let ghost xv = (x.0@, x.1@);
    let xc = chars_of(x.0.as_str());
    let mut i: usize = 0;
    assert(vs.skip(0) =~= vs);
    while i < v.len() && chars_lex_le(&chars_of(v[i].0.as_str()), &xc)
        invariant
            i <= v.len(),
            xc@ == x.0@,
            xv == (x.0@, x.1@),
            vs == pair_views(v@),
            path_insert_pos(vs, xv) == i + path_insert_pos(vs.skip(i as int), xv),
        decreases v.len() - i,
    {
        assert(vs.skip(i as int)[0] == vs[i as int]);
        assert(vs.skip(i as int).drop_first() =~= vs.skip(i + 1 as int));
        i += 1;
    }
    proof {
        if i < v.len() {
            assert(vs.skip(i as int)[0] == vs[i as int]);
        }
        lemma_insert_by_path(vs, xv);
    }
    v.insert(i, x);
    assert(pair_views(v@) =~= vs.insert(i as int, xv));
}

/// Path and hex digest of each file, in order.
fn hash_files(files: &Vec<ManifestFile>) -> (r: Vec<(String, String)>)
    ensures
        pair_views(r@) == hashed_files(files@),
{
    let mut out: Vec<(String, String)> = Vec::new();
    let mut i: usize = 0;
    while i < files.len()
        invariant
            i <= files.len(),
            pair_views(out@) == hashed_files(files@).take(i as int),
        decreases files.len() - i,
    {
        let digest = sha256_hex(files[i].bytes.as_slice());
        let path = files[i].relative_path.clone();
        let ghost before = out@;
        out.push((path, digest));
        assert(pair_views(out@) =~= pair_views(before).push((files@[i as int].relative_path@, spec_sha256_hex(files@[i as int].bytes@))));
        assert(hashed_files(files@).take(i + 1 as int) =~= hashed_files(files@).take(i as int).push(hashed_files(files@)[i as int]));
        i += 1;
    }
    assert(hashed_files(files@).take(files.len() as int) =~= hashed_files(files@));
    out
}

/// The manifest text of `(path, digest)` entries: a line per entry,
/// sorted by path (entries of equal paths keep their order).
pub fn render_manifest_entries(entries: &Vec<(String, String)>) -> (r: String)
    ensures
        r@ == join_lines(sort_by_path(pair_views(entries@))),
{
    let ghost hs = pair_views(entries@);
    let mut sorted: Vec<(String, String)> = Vec::new();
    let mut i: usize = 0;
    assert(pair_views(sorted@) =~= sort_by_path(hs.take(0)));
    while i < entries.len()
        invariant
            i <= entries.len(),
            hs == pair_views(entries@),
            pair_views(sorted@) == sort_by_path(hs.take(i as int)),
        decreases entries.len() - i,
    {
        let path = entries[i].0.clone();
        let digest = entries[i].1.clone();
        assert(hs.take(i + 1 as int).drop_last() =~= hs.take(i as int));
        assert(hs.take(i + 1 as int).last() == (path@, digest@));
        insert_pair_sorted(&mut sorted, (path, digest));
        i += 1;
    }
    assert(hs.take(entries.len() as int) =~= hs);
    let ghost sv = pair_views(sorted@);
    let mut out = String::new();
    let mut k: usize = 0;
    assert(join_lines(sv.take(0)) =~= Seq::<char>::empty());
    while k < sorted.len()
        invariant
            k <= sorted.len(),
            sv == pair_views(sorted@),
            out@ == join_lines(sv.take(k as int)),
        decreases sorted.len() - k,
    {
        assert(sv.take(k + 1 as int).drop_last() =~= sv.take(k as int));
        assert(sv.take(k + 1 as int).last() == sv[k as int]);
        if k > 0 {
            push_str(&mut out, "\n");
        } else {
            assert(sv.take(1) =~= seq![sv[0]]);
        }
        push_str(&mut out, sorted[k].1.as_str());
        push_str(&mut out, "  ");
        push_str(&mut out, sorted[k].0.as_str());
        k += 1;
    }
    assert(sv.take(sorted.len() as int) =~= sv);
    out
}

/// The manifest text of `files` (see `spec_manifest`).
pub fn render_manifest(files: &Vec<ManifestFile>) -> (r: String)
    ensures
        r@ == spec_manifest(files@),
{
    let entries = hash_files(files);
    render_manifest_entries(&entries)
}

/// The manifest text matches the files: equal after trimming and turning
/// `\r\n` into `\n`.
pub fn validate_schema_manifest(manifest_contents: &str, files: &Vec<ManifestFile>) -> (r: Result<(), ManifestMismatch>)
    ensures
        r is Ok <==> normalize_newline(manifest_contents@) == normalize_newline(spec_manifest(files@)),
{
    let actual = render_manifest(files);
    let a = replace_crlf(trim_str(manifest_contents));
    let b = replace_crlf(trim_str(actual.as_str()));
    if str_eq(a.as_str(), b.as_str()) {
        Ok(())
    } else {
        Err(ManifestMismatch::Mismatch)
    }
}

} // verus!
