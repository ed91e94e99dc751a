//! Layout and consistency rules of the file-system artifact store: where an
//! artifact lives, when a lock is stale, and which writes are conflicts.
use vstd::prelude::*;
use vstd::utf8::*;
use crate::artifact::types::{ArtifactMeta, FsArtifactStore, StoreErr};
use crate::digest::{compute_revision, hex_encode, hex_lower, lemma_hex_lower_len, sha256, spec_revision, spec_sha256_hex};
use crate::text::{
    chars_of, first_index_of, lemma_first_index_of, owned, parse_u64, parse_u64_str, push_char,
    push_str, str_eq, string_from_chars, trim, trim_str,
};
use crate::wire::{resolve_attachment_path, spec_resolve_path};

verus! {

/// A character kept as it is in an artifact key: ASCII letters and digits,
/// `_` and `-`.
pub open spec fn is_key_char(c: char) -> bool {
    ('a' <= c && c <= 'z') || ('A' <= c && c <= 'Z') || ('0' <= c && c <= '9') || c == '_' || c == '-'
}

/// `id` with every other character replaced by `_`.
pub open spec fn sanitize(id: Seq<char>) -> Seq<char> {
    id.map_values(|c: char| if is_key_char(c) { c } else { '_' })
}

/// Directory name of an artifact whose id has the hex digest
/// `digest_hex`: its sanitized id (or `artifact` when the id is empty),
/// `_`, and the first 12 hex digits.
pub open spec fn key_with_digest(id: Seq<char>, digest_hex: Seq<char>) -> Seq<char> {
    let prefix = if id.len() == 0 { "artifact"@ } else { sanitize(id) };
    prefix + "_"@ + digest_hex.take(12)
}

/// Directory name of an artifact: the key of its id with the SHA-256 of
/// the id (see `key_with_digest`).
pub open spec fn spec_artifact_key(id: Seq<char>) -> Seq<char> {
    key_with_digest(id, spec_sha256_hex(encode_utf8(id)))
}

/// Directory name of an artifact (see `spec_artifact_key`).
pub fn artifact_key(artifact_id: &str) -> (r: String)
    ensures
        r@ == spec_artifact_key(artifact_id@),
{
    let digest = sha256(artifact_id.as_bytes());
    artifact_key_from_digest(artifact_id, digest.as_slice())
}

/// Directory name of an artifact whose id has the SHA-256 digest
/// `digest` (see `key_with_digest`).
pub fn artifact_key_from_digest(artifact_id: &str, digest: &[u8]) -> (r: String)
    requires
        digest@.len() >= 6,
    ensures
        r@ == key_with_digest(artifact_id@, hex_lower(digest@)),
{
    let cs = chars_of(artifact_id);
    let mut prefix = String::new();
    let mut i: usize = 0;
    while i < cs.len()
        invariant
            i <= cs.len(),
            cs@ == artifact_id@,
            prefix@ == sanitize(cs@.take(i as int)),
        decreases cs.len() - i,
    {
        let c = cs[i];
        let keep = ('a' <= c && c <= 'z') || ('A' <= c && c <= 'Z') || ('0' <= c && c <= '9') || c == '_' || c == '-';
        if keep {
            push_char(&mut prefix, c);
        } else {
            push_char(&mut prefix, '_');
        }
        assert(sanitize(cs@.take(i + 1 as int)) =~= sanitize(cs@.take(i as int)).push(if is_key_char(c) { c } else { '_' }));
        i += 1;
    }
    assert(cs@.take(cs.len() as int) =~= cs@);
    if cs.len() == 0 {
        prefix = owned("artifact");
    }
    proof { lemma_hex_lower_len(digest@); }
    let hex = hex_encode(digest);
    let dc = chars_of(hex.as_str());
    let short = string_from_chars(&dc, 0, 12);
    assert(short@ =~= hex_lower(digest@).take(12));
    push_str(&mut prefix, "_");
    push_str(&mut prefix, short.as_str());
    prefix
}

impl FsArtifactStore {
    /// A store under `root`.
    pub fn new(root: &str) -> (s: Self)
        ensures
            s.root@ == root@,
    {
        FsArtifactStore { root: owned(root) }
    }

    /// Directory of an artifact.
    pub fn artifact_dir(&self, artifact_id: &str) -> (r: String)
        ensures
            r@ == spec_resolve_path(self.root@, spec_artifact_key(artifact_id@)),
    {
        let key = artifact_key(artifact_id);
        resolve_attachment_path(self.root.as_str(), key.as_str())
    }

    /// A file in the directory of an artifact.
    fn artifact_file(&self, artifact_id: &str, name: &str) -> (r: String)
        ensures
            r@ == spec_resolve_path(spec_resolve_path(self.root@, spec_artifact_key(artifact_id@)), name@),
    {
        let dir = self.artifact_dir(artifact_id);
        resolve_attachment_path(dir.as_str(), name)
    }

    /// The text of an artifact.
    pub fn text_path(&self, artifact_id: &str) -> (r: String)
        ensures
            r@ == spec_resolve_path(spec_resolve_path(self.root@, spec_artifact_key(artifact_id@)), "text.txt"@),
    {
        self.artifact_file(artifact_id, "text.txt")
    }

    /// The metadata of an artifact.
    pub fn meta_path(&self, artifact_id: &str) -> (r: String)
        ensures
            r@ == spec_resolve_path(spec_resolve_path(self.root@, spec_artifact_key(artifact_id@)), "meta.json"@),
    {
        self.artifact_file(artifact_id, "meta.json")
    }

    /// The record of an artifact's last save.
    pub fn save_meta_path(&self, artifact_id: &str) -> (r: String)
        ensures
            r@ == spec_resolve_path(spec_resolve_path(self.root@, spec_artifact_key(artifact_id@)), "last_save_meta.json"@),
    {
        self.artifact_file(artifact_id, "last_save_meta.json")
    }

    /// The lock file of an artifact.
    pub fn lock_path(&self, artifact_id: &str) -> (r: String)
        ensures
            r@ == spec_resolve_path(spec_resolve_path(self.root@, spec_artifact_key(artifact_id@)), ".artifact.lock"@),
    {
        self.artifact_file(artifact_id, ".artifact.lock")
    }
}

/// Creation time in a lock file `pid:unix_ms`: the number after the first
/// `:` of the trimmed contents.
pub open spec fn spec_lock_created_ms(raw: Seq<char>) -> Option<u64> {
    let t = trim(raw);
    match first_index_of(t, ':') {
        Some(i) => parse_u64(t.subrange(i + 1, t.len() as int)),
        None => None,
    }
}

/// Creation time in a lock file (see `spec_lock_created_ms`).
pub fn parse_lock_created_unix_ms(raw: &str) -> (r: Option<u64>)
    ensures
        r == spec_lock_created_ms(raw@),
{
    let t = trim_str(raw);
    let cs = chars_of(t);
    proof { lemma_first_index_of(t@, ':'); }
    let mut i: usize = 0;
    while i < cs.len()
        invariant
            i <= cs.len(),
            cs@ == t@,
            t@ == trim(raw@),
            forall|j: int| 0 <= j < i ==> cs@[j] != ':',
        decreases cs.len() - i,
    {
        if cs[i] == ':' {
            proof { lemma_first_at(t@, ':', i as int); }
            let rest = string_from_chars(&cs, i + 1, cs.len());
            assert(rest@ == t@.subrange(i + 1, t@.len() as int));
            return parse_u64_str(rest.as_str());
        }
        i += 1;
    }
    proof { lemma_first_absent(t@, ':'); }
    None
}

/// A position of `c` with no `c` before it is the first one.
proof fn lemma_first_at(s: Seq<char>, c: char, k: int)
    requires
        0 <= k < s.len(),
        s[k] == c,
        forall|j: int| 0 <= j < k ==> s[j] != c,
    ensures
        first_index_of(s, c) == Some(k),
    decreases s.len(),
{
    if k > 0 {
        assert forall|j: int| 0 <= j < k - 1 implies s.drop_first()[j] != c by {
            assert(s.drop_first()[j] == s[j + 1]);
        }
        lemma_first_at(s.drop_first(), c, k - 1);
    }
}

/// Without any `c` there is no first one.
proof fn lemma_first_absent(s: Seq<char>, c: char)
    requires
        forall|j: int| 0 <= j < s.len() ==> s[j] != c,
    ensures
        first_index_of(s, c) is None,
    decreases s.len(),
{
    if s.len() > 0 {
        assert forall|j: int| 0 <= j < s.len() - 1 implies s.drop_first()[j] != c by {
            assert(s.drop_first()[j] == s[j + 1]);
        }
        lemma_first_absent(s.drop_first(), c);
    }
}

/// Locks are stale after 30 seconds.
pub const LOCK_STALE_AFTER_MS: u64 = 30_000;

/// A lock is stale when the creation time it records is at least 30 s
/// before `now_ms`; otherwise, when the file's age is known, when that age
/// is at least 30 s; otherwise it is not.
pub open spec fn spec_lock_is_stale(now_ms: u64, contents: Option<Seq<char>>, modified_age_ms: Option<u64>) -> bool {
    let by_contents = match contents {
        Some(raw) => match spec_lock_created_ms(raw) {
            Some(created) => (if now_ms >= created { now_ms - created } else { 0 }) >= LOCK_STALE_AFTER_MS,
            None => false,
        },
        None => false,
    };
    if by_contents {
        true
    } else {
        match modified_age_ms {
            Some(age) => age >= LOCK_STALE_AFTER_MS,
            None => false,
        }
    }
}

/// Whether a lock is stale (see `spec_lock_is_stale`), from the current
/// time, the lock file's contents and its age when they could be read.
pub fn lock_is_stale(now_ms: u64, contents: Option<&str>, modified_age_ms: Option<u64>) -> (r: bool)
    ensures
        r == spec_lock_is_stale(now_ms, match contents { Some(c) => Some(c@), None => None }, modified_age_ms),
{
    match contents {
        Some(raw) => match parse_lock_created_unix_ms(raw) {
            Some(created) => {
                let age = now_ms.saturating_sub(created);
                if age >= LOCK_STALE_AFTER_MS {
                    return true;
                }
            },
            None => {},
        },
        None => {},
    }
    match modified_age_ms {
        Some(age) => age >= LOCK_STALE_AFTER_MS,
        None => false,
    }
}

/// A save is refused when it expects a revision other than that of the
/// current text.
pub fn check_save_revision(current_text: &str, previous_revision: Option<&str>) -> (r: Result<(), StoreErr>)
    ensures
        match previous_revision {
            Some(p) => if p@ == spec_revision(current_text@) {
                r is Ok
            } else {
                r matches Err(StoreErr::Conflict { expected, actual }) && expected@ == p@ && actual@ == spec_revision(current_text@)
            },
            None => r is Ok,
        },
{
    let actual = compute_revision(current_text);
    match previous_revision {
        Some(expected) => {
            if !str_eq(expected, actual.as_str()) {
                return Err(StoreErr::Conflict { expected: owned(expected), actual });
            }
            Ok(())
        },
        None => Ok(()),
    }
}

/// Metadata is refused when its revision is not that of the current text.
pub fn check_meta_revision(current_text: &str, meta: &ArtifactMeta) -> (r: Result<(), StoreErr>)
    ensures
        if meta.revision@ == spec_revision(current_text@) {
            r is Ok
        } else {
            r matches Err(StoreErr::Conflict { expected, actual }) && expected@ == meta.revision@ && actual@ == spec_revision(current_text@)
        },
{
    let actual = compute_revision(current_text);
    if !str_eq(meta.revision.as_str(), actual.as_str()) {
        return Err(StoreErr::Conflict { expected: meta.revision.clone(), actual });
    }
    Ok(())
}

} // verus!
