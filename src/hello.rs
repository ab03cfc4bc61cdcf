//! The messages of the handshake and the identity it hands out.
use vstd::prelude::*;
use vstd::utf8::encode_utf8;

use crate::digest::{base64_standard, base64_standard_of, is_standard_char, sha256, sha256_of};

verus! {

/// An opaque identifier of a tunnel client.
pub struct ClientId(pub String);

impl View for ClientId {
    type V = Seq<char>;

    open spec fn view(&self) -> Seq<char> {
        self.0@
    }
}

impl PartialEq for ClientId {
    fn eq(&self, other: &ClientId) -> (r: bool) {
        self.0 == other.0
    }
}

impl vstd::std_specs::cmp::PartialEqSpecImpl for ClientId {
    open spec fn obeys_eq_spec() -> bool {
        true
    }

    open spec fn eq_spec(&self, other: &ClientId) -> bool {
        self@ == other@
    }
}

impl Clone for ClientId {
    fn clone(&self) -> (r: ClientId)
        ensures
            r@ == self@,
    {
        ClientId(self.0.clone())
    }
}

/// The identifier derived from a secret: its SHA-256 digest as standard base64.
pub open spec fn client_id_of_secret(secret: Seq<char>) -> Seq<char> {
    base64_standard_of(sha256_of(encode_utf8(secret)))
}

/// The identifier drawn from 32 random bytes: those bytes as standard base64.
pub open spec fn client_id_of_entropy(bytes: Seq<u8>) -> Seq<char> {
    base64_standard_of(bytes)
}

impl ClientId {
    /// The identifier that a client presenting `secret` always gets.
    pub fn for_secret(secret: &str) -> (r: ClientId)
        ensures
            r@ == client_id_of_secret(secret@),
            r@.len() == 44,
            forall|i: int| 0 <= i < r@.len() ==> is_standard_char(#[trigger] r@[i]),
    {
        let hash = sha256(secret.as_bytes());
        ClientId(base64_standard(hash.as_slice()))
    }

    /// A fresh identifier made of caller-supplied random bytes.
    pub fn from_entropy(bytes: &[u8; 32]) -> (r: ClientId)
        ensures
            r@ == client_id_of_entropy(bytes@),
            r@.len() == 44,
            forall|i: int| 0 <= i < r@.len() ==> is_standard_char(#[trigger] r@[i]),
    {
        ClientId(base64_standard(bytes.as_slice()))
    }
}

/// A signed token by which a client resumes an earlier identity.
pub struct ReconnectToken(pub String);

/// How a client declares itself in its first message.
pub enum ClientType {
    Anonymous,
    Auth { key: String },
}

/// The first message a client sends.
pub struct ClientHello {
    pub client_type: ClientType,
    pub sub_domain: Option<String>,
    pub reconnect_token: Option<ReconnectToken>,
}

/// The rejection the server sends before it closes a connection.
#[derive(Clone, Copy, Debug, PartialEq, Eq, Structural)]
pub enum ServerHello {
    AuthFailed,
    InvalidSubDomain,
    SubDomainInUse,
}

/// What a successful admission yields.
pub struct ClientHandshake {
    pub id: ClientId,
    pub sub_domain: String,
    pub is_anonymous: bool,
}

} // verus!
