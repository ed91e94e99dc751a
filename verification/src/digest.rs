//! SHA-256 digests in lowercase hex, through the `sha2` crate.
use vstd::prelude::*;
use vstd::string::*;
use vstd::utf8::*;
use crate::text::{owned, push_char, push_str};

verus! {

/// The SHA-256 digest of `data`, as computed by the `sha2` crate.
pub uninterp spec fn spec_sha256(data: Seq<u8>) -> Seq<u8>;

/// SHA-256 of `data` (`sha2::Sha256`, through `sha2::Digest::digest`).
/// Claimed: the result is the digest named `spec_sha256` of the input
/// bytes, and it is 32 bytes long (`Sha256`'s output size).
#[verifier::external_body]
pub(crate) fn sha256(data: &[u8]) -> (r: Vec<u8>)
    ensures
        r@ == spec_sha256(data@),
        r@.len() == 32,
{
    <sha2::Sha256 as sha2::Digest>::digest(data).to_vec()
}

/// Lowercase hex digit of `n < 16`.
pub open spec fn hex_digit(n: u8) -> char {
    if n < 10 { ((n + 48) as u8) as char } else { ((n + 87) as u8) as char }
}

/// Lowercase hex of `b`: two digits per byte, high nibble first.
pub open spec fn hex_lower(b: Seq<u8>) -> Seq<char>
    decreases b.len(),
{
    if b.len() == 0 {
        Seq::empty()
    } else {
        seq![hex_digit(b[0] / 16), hex_digit(b[0] % 16)] + hex_lower(b.drop_first())
    }
}

/// Lowercase hex digit of `n < 16`.
fn hex_digit_char(n: u8) -> (c: char)
    requires
        n < 16,
    ensures
        c == hex_digit(n),
{
    if n < 10 { (n + 48) as char } else { (n + 87) as char }
}

/// Hex of `s` followed by one more byte is the hex of `s` and then that
/// byte's two digits.
proof fn lemma_hex_lower_push(s: Seq<u8>, b: u8)
    ensures
        hex_lower(s.push(b)) == hex_lower(s) + seq![hex_digit(b / 16), hex_digit(b % 16)],
    decreases s.len(),
{
    if s.len() == 0 {
        assert(s.push(b).drop_first() =~= Seq::<u8>::empty());
        assert(s.push(b)[0] == b);
        assert(hex_lower(Seq::<u8>::empty()) =~= Seq::<char>::empty());
        assert(hex_lower(s.push(b)) =~= seq![hex_digit(b / 16), hex_digit(b % 16)]);
    } else {
        lemma_hex_lower_push(s.drop_first(), b);
        assert(s.push(b).drop_first() =~= s.drop_first().push(b));
        assert(s.push(b)[0] == s[0]);
        assert(hex_lower(s.push(b)) =~= hex_lower(s) + seq![hex_digit(b / 16), hex_digit(b % 16)]);
    }
}

/// Lowercase hex of `data`, two digits per byte, high nibble first (what
/// `hex::encode` gives).
pub(crate) fn hex_encode(data: &[u8]) -> (r: String)
    ensures
        r@ == hex_lower(data@),
{
    let mut r = String::new();
    let mut i: usize = 0;
    while i < data.len()
        invariant
            i <= data@.len(),
            r@ == hex_lower(data@.take(i as int)),
        decreases data@.len() - i,
    {
        let b = data[i];
        proof {
            lemma_hex_lower_push(data@.take(i as int), b);
            assert(data@.take(i as int).push(b) =~= data@.take(i as int + 1));
        }
        push_char(&mut r, hex_digit_char(b / 16));
        push_char(&mut r, hex_digit_char(b % 16));
        i = i + 1;
    }
    assert(data@.take(i as int) =~= data@);
    r
}

/// Hex of a byte string has two characters per byte.
pub proof fn lemma_hex_lower_len(b: Seq<u8>)
    ensures
        hex_lower(b).len() == 2 * b.len(),
    decreases b.len(),
{
    if b.len() > 0 {
        lemma_hex_lower_len(b.drop_first());
    }
}

/// Lowercase hex of the SHA-256 digest of `data`.
pub open spec fn spec_sha256_hex(data: Seq<u8>) -> Seq<char> {
    hex_lower(spec_sha256(data))
}

/// Lowercase hex of the SHA-256 digest of `data` (64 characters).
pub fn sha256_hex(data: &[u8]) -> (r: String)
    ensures
        r@ == spec_sha256_hex(data@),
        r@.len() == 64,
{
    let d = sha256(data);
    proof { lemma_hex_lower_len(d@); }
    hex_encode(d.as_slice())
}

/// Revision of a text: `sha256:` and the hex digest of its UTF-8 bytes.
pub open spec fn spec_revision(text: Seq<char>) -> Seq<char> {
    "sha256:"@ + spec_sha256_hex(encode_utf8(text))
}

/// Revision text of a digest: `sha256:` and its lowercase hex.
pub fn revision_from_digest(digest: &[u8]) -> (r: String)
    ensures
        r@ == "sha256:"@ + hex_lower(digest@),
{
    let hex = hex_encode(digest);
    let mut r = owned("sha256:");
    push_str(&mut r, hex.as_str());
    r
}

/// Revision of a text (see `spec_revision`).
pub fn compute_revision(text: &str) -> (r: String)
    ensures
        r@ == spec_revision(text@),
{
    let digest = sha256(text.as_bytes());
    revision_from_digest(digest.as_slice())
}

} // verus!
