//! Reconnect tokens: a client identity and subdomain, signed with the server's
//! key so that a reconnecting client can resume them.
//!
//! A token is the text `signature.client_id.sub_domain`, where the signature is
//! the HMAC-SHA256 tag of `client_id.sub_domain` (UTF-8) in lowercase hex.
use vstd::prelude::*;
use vstd::utf8::encode_utf8;

use crate::hello::{ClientId, ReconnectToken};
use crate::text::{
    chars_of, dot_free, lemma_split_joined, same_chars, split_at_dot, split_once_at_dot, string_of,
};

verus! {

/// The HMAC-SHA256 tag of a message under a key.
pub uninterp spec fn hmac_sha256_of(key: Seq<u8>, message: Seq<u8>) -> Seq<u8>;

/// Relies on hmac's `Hmac<Sha256>`: `new_from_slice` takes a key of any length
/// (it never returns its error for HMAC), and `finalize` yields the 32-byte tag
/// of what `update` was given.
#[verifier::external_body]
fn hmac_sha256(key: &[u8], message: &[u8]) -> (r: Vec<u8>)
    ensures
        r@ == hmac_sha256_of(key@, message@),
        r@.len() == 32,
{
    match <hmac::Hmac<sha2::Sha256> as hmac::NewMac>::new_from_slice(key) {
        Ok(mut mac) => {
            hmac::Mac::update(&mut mac, message);
            hmac::Mac::finalize(mac).into_bytes().to_vec()
        },
        Err(_) => Vec::new(),
    }
}

pub open spec fn hex_digit(n: u8) -> char {
    if n < 10 {
        "0123456789"@[n as int]
    } else {
        "abcdef"@[n - 10]
    }
}

/// Lowercase hex text of a byte sequence, two digits per byte.
pub open spec fn hex_of(b: Seq<u8>) -> Seq<char>
    decreases b.len(),
{
    if b.len() == 0 {
        seq![]
    } else {
        hex_of(b.drop_last()) + seq![hex_digit(b.last() / 16), hex_digit(b.last() % 16)]
    }
}

proof fn lemma_hex_dot_free(b: Seq<u8>)
    ensures
        dot_free(hex_of(b)),
        hex_of(b).len() == 2 * b.len(),
    decreases b.len(),
{
    reveal_strlit("0123456789");
    reveal_strlit("abcdef");
    if b.len() > 0 {
        lemma_hex_dot_free(b.drop_last());
        let h = hex_of(b.drop_last());
        let t = seq![hex_digit(b.last() / 16), hex_digit(b.last() % 16)];
        assert forall|i: int| 0 <= i < hex_of(b).len() implies #[trigger] hex_of(b)[i] != '.' by {
            if i >= h.len() {
                assert(hex_of(b)[i] == t[i - h.len()]);
            } else {
                assert(hex_of(b)[i] == h[i]);
            }
        }
    }
}

fn hex_digit_exec(n: u8) -> (r: char)
    requires
        n < 16,
    ensures
        r == hex_digit(n),
{
    proof {
        reveal_strlit("0123456789");
        reveal_strlit("abcdef");
    }
    let digits: [char; 16] = [
        '0', '1', '2', '3', '4', '5', '6', '7', '8', '9', 'a', 'b', 'c', 'd', 'e', 'f',
    ];
    digits[n as usize]
}

fn hex_encode(b: &[u8]) -> (r: Vec<char>)
    ensures
        r@ == hex_of(b@),
{
    let mut r: Vec<char> = Vec::new();
    let mut i: usize = 0;
    while i < b.len()
        invariant
            i <= b@.len(),
            r@ == hex_of(b@.take(i as int)),
        decreases b@.len() - i,
    {
        assert(b@.take(i as int + 1).drop_last() =~= b@.take(i as int));
        r.push(hex_digit_exec(b[i] / 16));
        r.push(hex_digit_exec(b[i] % 16));
        i = i + 1;
    }
    assert(b@.take(b@.len() as int) =~= b@);
    r
}

/// The signature text of a token body under a key.
pub open spec fn signature_text(key: Seq<u8>, body: Seq<char>) -> Seq<char> {
    hex_of(hmac_sha256_of(key, encode_utf8(body)))
}

pub open spec fn token_body(client_id: Seq<char>, sub_domain: Seq<char>) -> Seq<char> {
    client_id + seq!['.'] + sub_domain
}

/// The token that signs `client_id` and `sub_domain` with `key`.
pub open spec fn token_text(key: Seq<u8>, client_id: Seq<char>, sub_domain: Seq<char>) -> Seq<
    char,
> {
    signature_text(key, token_body(client_id, sub_domain)) + seq!['.'] + token_body(
        client_id,
        sub_domain,
    )
}

/// Why a token was refused.
#[derive(Clone, Copy, Debug, PartialEq, Eq, Structural)]
pub enum TokenError {
    /// The text does not have the shape of a token.
    Malformed,
    /// The signature does not match the body under the key.
    InvalidSignature,
}

/// What verifying the token text `t` under `key` gives: the client identity and
/// the subdomain, or the reason for refusal.
pub open spec fn token_outcome(t: Seq<char>, key: Seq<u8>) -> Result<
    (Seq<char>, Seq<char>),
    TokenError,
> {
    match split_at_dot(t) {
        None => Err(TokenError::Malformed),
        Some((signature, body)) => if signature != signature_text(key, body) {
            Err(TokenError::InvalidSignature)
        } else {
            match split_at_dot(body) {
                None => Err(TokenError::Malformed),
                Some((client_id, sub_domain)) => Ok((client_id, sub_domain)),
            }
        },
    }
}

/// What a reconnect token asserts.
pub struct ReconnectTokenPayload {
    pub client_id: ClientId,
    pub sub_domain: String,
}

pub open spec fn payload_outcome(r: Result<ReconnectTokenPayload, TokenError>) -> Result<
    (Seq<char>, Seq<char>),
    TokenError,
> {
    match r {
        Ok(p) => Ok((p.client_id@, p.sub_domain@)),
        Err(e) => Err(e),
    }
}

fn signature(key: &[u8], body: &str) -> (r: Vec<char>)
    ensures
        r@ == signature_text(key@, body@),
{
    let tag = hmac_sha256(key, body.as_bytes());
    hex_encode(tag.as_slice())
}

impl ReconnectTokenPayload {
    /// Signs the payload with `key`. A client identifier holding a `.` cannot be
    /// told apart from the subdomain in a token, so it gets none.
    pub fn into_token(&self, key: &[u8]) -> (r: Option<ReconnectToken>)
        ensures
            r is Some <==> dot_free(self.client_id@),
            r matches Some(t) ==> t.0@ == token_text(key@, self.client_id@, self.sub_domain@),
    {
        let mut body = chars_of(self.client_id.0.as_str());
        if split_once_at_dot(&body).is_some() {
            return None;
        }
        body.push('.');
        let mut rest = chars_of(self.sub_domain.as_str());
        body.append(&mut rest);
        assert(body@ =~= token_body(self.client_id@, self.sub_domain@));
        let body_text = string_of(&body);
        let mut t = signature(key, body_text.as_str());
        t.push('.');
        let ghost signed = t@;
        t.append(&mut body);
        assert(t@ =~= signed + token_body(self.client_id@, self.sub_domain@));
        let r = string_of(&t);
        assert(r@ =~= token_text(key@, self.client_id@, self.sub_domain@));
        Some(ReconnectToken(r))
    }

    /// Checks a token's signature under `key` and returns the identity and
    /// subdomain it carries, exactly as they were signed.
    pub fn verify(token: ReconnectToken, key: &[u8]) -> (r: Result<ReconnectTokenPayload, TokenError>)
        ensures
            payload_outcome(r) == token_outcome(token.0@, key@),
    {
        let t = chars_of(token.0.as_str());
        let (given, body) = match split_once_at_dot(&t) {
            None => {
                return Err(TokenError::Malformed);
            },
            Some(parts) => parts,
        };
        let body_text = string_of(&body);
        let expected = signature(key, body_text.as_str());
        if !same_chars(&given, &expected) {
            return Err(TokenError::InvalidSignature);
        }
        match split_once_at_dot(&body) {
            None => Err(TokenError::Malformed),
            Some((client_id, sub_domain)) => Ok(
                ReconnectTokenPayload {
                    client_id: ClientId(string_of(&client_id)),
                    sub_domain: string_of(&sub_domain),
                },
            ),
        }
    }
}

/// A token signed with a key verifies under that key and gives back exactly the
/// identity and subdomain that were signed, for every identity without a `.`.
pub proof fn lemma_token_round_trip(key: Seq<u8>, client_id: Seq<char>, sub_domain: Seq<char>)
    requires
        dot_free(client_id),
    ensures
        token_outcome(token_text(key, client_id, sub_domain), key) == Ok::<
            (Seq<char>, Seq<char>),
            TokenError,
        >((client_id, sub_domain)),
{
    let body = token_body(client_id, sub_domain);
    let sig = signature_text(key, body);
    lemma_hex_dot_free(hmac_sha256_of(key, encode_utf8(body)));
    lemma_split_joined(sig, body);
    lemma_split_joined(client_id, sub_domain);
}

} // verus!
