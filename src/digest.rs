//! One-way hashing of credentials and the text encodings used for lookup keys,
//! client identifiers and token signatures.
use vstd::prelude::*;
use vstd::utf8::encode_utf8;

verus! {

/// The SHA-256 digest of a byte sequence.
pub uninterp spec fn sha256_of(data: Seq<u8>) -> Seq<u8>;

/// Base64 text of a byte sequence in the URL-safe alphabet, without padding.
pub uninterp spec fn base64_url_of(data: Seq<u8>) -> Seq<char>;

/// Base64 text of a byte sequence in the standard alphabet, with padding.
pub uninterp spec fn base64_standard_of(data: Seq<u8>) -> Seq<char>;

pub open spec fn is_url_safe_char(c: char) -> bool {
    ('A' <= c && c <= 'Z') || ('a' <= c && c <= 'z') || ('0' <= c && c <= '9') || c == '-' || c
        == '_'
}

pub open spec fn is_standard_char(c: char) -> bool {
    ('A' <= c && c <= 'Z') || ('a' <= c && c <= 'z') || ('0' <= c && c <= '9') || c == '+' || c
        == '/' || c == '='
}

/// Length of unpadded base64 text for `n` bytes.
pub open spec fn unpadded_len(n: nat) -> nat {
    (n / 3) * 4 + if n % 3 == 0 {
        0
    } else {
        n % 3 + 1
    }
}

/// Length of padded base64 text for `n` bytes.
pub open spec fn padded_len(n: nat) -> nat {
    ((n + 2) / 3) * 4
}

/// Relies on `sha2::Sha256::digest`: the 32-byte SHA-256 digest of the input.
#[verifier::external_body]
pub(crate) fn sha256(data: &[u8]) -> (r: Vec<u8>)
    ensures
        r@ == sha256_of(data@),
        r@.len() == 32,
{
    <sha2::Sha256 as sha2::Digest>::digest(data).to_vec()
}

/// Relies on `base64::encode_config` with `URL_SAFE_NO_PAD`: text over
/// `A-Z a-z 0-9 - _`, four characters for each three bytes, no `=` padding.
#[verifier::external_body]
pub(crate) fn base64_url(data: &[u8]) -> (r: String)
    ensures
        r@ == base64_url_of(data@),
        r@.len() == unpadded_len(data@.len()),
        forall|i: int| 0 <= i < r@.len() ==> is_url_safe_char(#[trigger] r@[i]),
{
    base64::encode_config(data, base64::URL_SAFE_NO_PAD)
}

/// Relies on `base64::encode`: text over `A-Z a-z 0-9 + /`, padded with `=`
/// to a multiple of four characters.
#[verifier::external_body]
pub(crate) fn base64_standard(data: &[u8]) -> (r: String)
    ensures
        r@ == base64_standard_of(data@),
        r@.len() == padded_len(data@.len()),
        forall|i: int| 0 <= i < r@.len() ==> is_standard_char(#[trigger] r@[i]),
{
    base64::encode(data)
}

/// The directory lookup key of a secret: its SHA-256 digest over UTF-8, as
/// unpadded URL-safe base64.
pub open spec fn lookup_key_of(secret: Seq<char>) -> Seq<char> {
    base64_url_of(sha256_of(encode_utf8(secret)))
}

/// Turns a raw secret into the key under which the account directory files it.
/// Deterministic and unsalted, so the same secret finds the same record in every
/// process.
pub fn key_id(auth_key: &str) -> (r: String)
    ensures
        r@ == lookup_key_of(auth_key@),
        r@.len() == 43,
        forall|i: int| 0 <= i < r@.len() ==> is_url_safe_char(#[trigger] r@[i]),
{
    let bytes = auth_key.as_bytes();
    let hash = sha256(bytes);
    base64_url(hash.as_slice())
}

/// Hashing a secret does not depend on when or how often it is done: two
/// lookup keys computed from equal secrets are equal.
pub proof fn lemma_lookup_key_stable(s1: Seq<char>, s2: Seq<char>, k1: Seq<char>, k2: Seq<char>)
    requires
        s1 == s2,
        k1 == lookup_key_of(s1),
        k2 == lookup_key_of(s2),
    ensures
        k1 == k2,
{
}

} // verus!
