//! The admission handshake as a state machine. Each step takes what the
//! connection or a collaborator produced and says what to do next; the caller
//! performs that action and feeds its result back as the next event.
use vstd::prelude::*;

use crate::account::{AccountId, Error};
use crate::digest::{key_id, lookup_key_of};
use crate::hello::{
    client_id_of_entropy, client_id_of_secret, ClientHandshake, ClientHello, ClientId, ClientType,
    ReconnectToken, ServerHello,
};
use crate::subdomain::{
    lowercase_of, names_of, ownership, sanitize_sub_domain, screen, settle_sub_domain,
    well_formed_sub_domain, AuthResult, RegistryLookup,
};
use crate::token::{token_outcome, ReconnectTokenPayload};

verus! {

/// What the handshake needs from the server's configuration.
pub struct HandshakeConfig {
    /// The key that reconnect tokens are signed with.
    pub signing_key: Vec<u8>,
    /// Names that no client may request.
    pub blocked_sub_domains: Vec<String>,
}

/// Where a handshake stands.
pub enum Phase {
    /// Nothing has been read yet.
    AwaitingHello,
    /// A client presented a credential; its account is being looked up.
    AwaitingAccount {
        key: String,
        requested_sub_domain: Option<String>,
        reconnect_token: Option<ReconnectToken>,
    },
    /// A requested name passed its checks; the registry is being asked about it.
    AwaitingRegistry { client_id: ClientId, sub_domain: String },
    /// A fresh name and identity are to be drawn.
    AwaitingEntropy,
    /// The handshake is over.
    Finished,
}

/// What happened since the last step.
pub enum Event {
    /// The connection gave no readable first message.
    Closed,
    /// The first message is not a client hello.
    Undecodable,
    /// The client's first message.
    Hello(ClientHello),
    /// The account directory's verdict on the credential.
    Account(Result<AccountId, Error>),
    /// The registry's report on the requested name.
    Registry(RegistryLookup),
    /// Random bytes for a fresh name and a fresh identity.
    Entropy { sub_domain: [u8; 8], client_id: [u8; 32] },
}

/// What the caller is to do next.
pub enum Action {
    /// Look up the account filed under this key.
    LookupAccount { lookup_key: String },
    /// Ask the registry who serves this name.
    QueryRegistry { sub_domain: String },
    /// Draw random bytes for a fresh name and identity.
    DrawEntropy,
    /// Send the reply, if any, and close the connection.
    Reject { reply: Option<ServerHello> },
    /// The client is admitted.
    Admit(ClientHandshake),
}

/// A character of a drawn name: `a-z` for 0 to 25, `0-9` for 26 to 35.
pub open spec fn name_char(n: u8) -> char {
    if n < 26 {
        (97 + n) as u8 as char
    } else {
        (48 + n - 26) as u8 as char
    }
}

/// The name drawn from random bytes: one character per byte, by its value
/// modulo 36.
pub open spec fn random_sub_domain_of(bytes: Seq<u8>) -> Seq<char> {
    bytes.map_values(|b: u8| name_char(b % 36))
}

/// Makes a fresh name of eight lowercase letters and digits from random bytes.
pub fn random_sub_domain(bytes: &[u8; 8]) -> (r: String)
    ensures
        r@ == random_sub_domain_of(bytes@),
        r@.len() == 8,
        well_formed_sub_domain(r@),
{
    let mut chars: Vec<char> = Vec::new();
    let mut i: usize = 0;
    while i < 8
        invariant
            i <= 8,
            bytes@.len() == 8,
            chars@ == random_sub_domain_of(bytes@.take(i as int)),
        decreases 8 - i,
    {
        let n = bytes[i] % 36;
        let c = if n < 26 {
            (97u8 + n) as char
        } else {
            (48u8 + (n - 26)) as char
        };
        assert(random_sub_domain_of(bytes@.take(i as int + 1)) =~= random_sub_domain_of(
            bytes@.take(i as int),
        ).push(c));
        chars.push(c);
        i = i + 1;
    }
    assert(bytes@.take(8) =~= bytes@);
    crate::text::string_of(&chars)
}

/// The events that a phase waits for.
pub open spec fn expects(phase: Phase, event: Event) -> bool {
    match phase {
        Phase::AwaitingHello => event is Closed || event is Undecodable || event is Hello,
        Phase::AwaitingAccount { .. } => event is Account,
        Phase::AwaitingRegistry { .. } => event is Registry,
        Phase::AwaitingEntropy => event is Entropy,
        Phase::Finished => false,
    }
}

pub open spec fn rejects(a: Action, reply: Option<ServerHello>) -> bool {
    a == Action::Reject { reply }
}

pub open spec fn admits(a: Action, id: Seq<char>, sub_domain: Seq<char>, anonymous: bool) -> bool {
    a matches Action::Admit(h) && h.id@ == id && h.sub_domain@ == sub_domain && h.is_anonymous
        == anonymous
}

fn finish(reply: Option<ServerHello>) -> (r: (Phase, Action))
    ensures
        r.0 is Finished,
        rejects(r.1, reply),
{
    (Phase::Finished, Action::Reject { reply })
}

/// Advances a handshake by one event.
///
/// A bare hello without a credential, a credential the directory does not
/// confirm, and an event the phase does not wait for all end it with no reply.
/// An undecodable hello and a bad reconnect token end it with `AuthFailed`; a
/// requested name is refused with the negotiator's reply. The handshake ends
/// exactly when it rejects or admits, so at most one reply is ever sent.
pub fn step(config: &HandshakeConfig, phase: Phase, event: Event) -> (r: (Phase, Action))
    ensures
        r.0 is Finished <==> (r.1 is Reject || r.1 is Admit),
        !expects(phase, event) ==> r.0 is Finished && rejects(r.1, None),
        (phase is AwaitingHello && event is Closed) ==> rejects(r.1, None),
        (phase is AwaitingHello && event is Undecodable) ==> rejects(
            r.1,
            Some(ServerHello::AuthFailed),
        ),
        phase is AwaitingHello ==> (event matches Event::Hello(h) ==> match h.client_type {
            ClientType::Anonymous => rejects(r.1, None),
            ClientType::Auth { key } => r.0 == (Phase::AwaitingAccount {
                key,
                requested_sub_domain: h.sub_domain,
                reconnect_token: h.reconnect_token,
            }) && (r.1 matches Action::LookupAccount { lookup_key } && lookup_key@
                == lookup_key_of(key@)),
        }),
        (phase is AwaitingAccount && event matches Event::Account(Err(_))) ==> rejects(r.1, None),
        phase matches Phase::AwaitingAccount { key, requested_sub_domain: Some(req), .. } ==> (event matches Event::Account(Ok(_)) ==> match screen(
            lowercase_of(req@),
            names_of(config.blocked_sub_domains@),
        ) {
            Err(e) => rejects(r.1, Some(e)),
            Ok(s) => (r.0 matches Phase::AwaitingRegistry { client_id, sub_domain } && client_id@
                == client_id_of_secret(key@) && sub_domain@ == s) && (
            r.1 matches Action::QueryRegistry { sub_domain: q } && q@ == s),
        }),
        phase matches Phase::AwaitingAccount { requested_sub_domain: None, reconnect_token: Some(t), .. }
            ==> (event matches Event::Account(Ok(_)) ==> match token_outcome(
            t.0@,
            config.signing_key@,
        ) {
            Err(_) => rejects(r.1, Some(ServerHello::AuthFailed)),
            Ok((id, s)) => admits(r.1, id, s, true),
        }),
        (phase matches Phase::AwaitingAccount { requested_sub_domain: None, reconnect_token: None, .. }
            && event matches Event::Account(Ok(_))) ==> r.0 is AwaitingEntropy && r.1 is DrawEntropy,
        phase matches Phase::AwaitingRegistry { client_id, sub_domain } ==> (event matches Event::Registry(reg) ==> if ownership(reg, client_id@) == AuthResult::ReservedByOther {
            rejects(r.1, Some(ServerHello::SubDomainInUse))
        } else {
            admits(r.1, client_id@, sub_domain@, false)
        }),
        phase is AwaitingEntropy ==> (event matches Event::Entropy { sub_domain, client_id } ==> admits(
            r.1,
            client_id_of_entropy(client_id@),
            random_sub_domain_of(sub_domain@),
            true,
        )),
{
    match phase {
        Phase::AwaitingHello => match event {
            Event::Closed => finish(None),
            Event::Undecodable => finish(Some(ServerHello::AuthFailed)),
            Event::Hello(hello) => match hello.client_type {
                ClientType::Anonymous => finish(None),
                ClientType::Auth { key } => {
                    let lookup_key = key_id(key.as_str());
                    (
                        Phase::AwaitingAccount {
                            key,
                            requested_sub_domain: hello.sub_domain,
                            reconnect_token: hello.reconnect_token,
                        },
                        Action::LookupAccount { lookup_key },
                    )
                },
            },
            _ => finish(None),
        },
        Phase::AwaitingAccount { key, requested_sub_domain, reconnect_token } => match event {
            Event::Account(Err(_)) => finish(None),
            Event::Account(Ok(_)) => match requested_sub_domain {
                Some(requested) => match sanitize_sub_domain(
                    requested.as_str(),
                    &config.blocked_sub_domains,
                ) {
                    Err(e) => finish(Some(e)),
                    Ok(s) => {
                        let q = s.clone();
                        (
                            Phase::AwaitingRegistry {
                                client_id: ClientId::for_secret(key.as_str()),
                                sub_domain: s,
                            },
                            Action::QueryRegistry { sub_domain: q },
                        )
                    },
                },
                None => match reconnect_token {
                    Some(token) => match ReconnectTokenPayload::verify(
                        token,
                        config.signing_key.as_slice(),
                    ) {
                        Err(_) => finish(Some(ServerHello::AuthFailed)),
                        Ok(payload) => (
                            Phase::Finished,
                            Action::Admit(
                                ClientHandshake {
                                    id: payload.client_id,
                                    sub_domain: payload.sub_domain,
                                    is_anonymous: true,
                                },
                            ),
                        ),
                    },
                    None => (Phase::AwaitingEntropy, Action::DrawEntropy),
                },
            },
            _ => finish(None),
        },
        Phase::AwaitingRegistry { client_id, sub_domain } => match event {
            Event::Registry(registry) => match settle_sub_domain(
                sub_domain,
                &client_id,
                &registry,
            ) {
                Err(e) => finish(Some(e)),
                Ok(s) => (
                    Phase::Finished,
                    Action::Admit(ClientHandshake { id: client_id, sub_domain: s, is_anonymous: false }),
                ),
            },
            _ => finish(None),
        },
        Phase::AwaitingEntropy => match event {
            Event::Entropy { sub_domain, client_id } => (
                Phase::Finished,
                Action::Admit(
                    ClientHandshake {
                        id: ClientId::from_entropy(&client_id),
                        sub_domain: random_sub_domain(&sub_domain),
                        is_anonymous: true,
                    },
                ),
            ),
            _ => finish(None),
        },
        Phase::Finished => finish(None),
    }
}

} // verus!
