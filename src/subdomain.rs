//! Negotiation of the public subdomain that a client asks for.
use vstd::prelude::*;

use crate::hello::{ClientId, ServerHello};

verus! {

/// The lowercase form of a text, character by character.
pub uninterp spec fn lowercase_of(s: Seq<char>) -> Seq<char>;

/// Relies on `str::to_lowercase`: the result depends on the text alone.
#[verifier::external_body]
fn to_lowercase(s: &str) -> (r: String)
    ensures
        r@ == lowercase_of(s@),
{
    s.to_lowercase()
}

pub open spec fn is_sub_domain_char(c: char) -> bool {
    ('a' <= c && c <= 'z') || ('0' <= c && c <= '9') || c == '-'
}

/// Every character is a lowercase ASCII letter, a digit or a hyphen.
pub open spec fn well_formed_sub_domain(s: Seq<char>) -> bool {
    forall|i: int| 0 <= i < s.len() ==> is_sub_domain_char(#[trigger] s[i])
}

pub open spec fn names_of(v: Seq<String>) -> Seq<Seq<char>> {
    v.map_values(|s: String| s@)
}

/// The checks on a lowercased name that need no registry.
pub open spec fn screen(lowered: Seq<char>, blocked: Seq<Seq<char>>) -> Result<
    Seq<char>,
    ServerHello,
> {
    if !well_formed_sub_domain(lowered) {
        Err(ServerHello::InvalidSubDomain)
    } else if blocked.contains(lowered) {
        Err(ServerHello::SubDomainInUse)
    } else {
        Ok(lowered)
    }
}

pub open spec fn outcome_of(r: Result<String, ServerHello>) -> Result<Seq<char>, ServerHello> {
    match r {
        Ok(s) => Ok(s@),
        Err(e) => Err(e),
    }
}

/// What the instance registry reported for a subdomain.
pub enum RegistryLookup {
    /// No instance serves the subdomain.
    DoesNotServeHost,
    /// A live instance serves it for this client.
    ServedBy { client_id: ClientId },
    /// The registry could not be asked.
    Unavailable,
}

/// Whether a subdomain is already bound, and to whom.
#[derive(Clone, Copy, Debug, PartialEq, Eq, Structural)]
pub enum AuthResult {
    ReservedByYou,
    ReservedByOther,
    Available,
}

/// How a registry report reads for `client`. A registry that could not be
/// asked counts as available: admission does not wait on it.
pub open spec fn ownership(registry: RegistryLookup, client: Seq<char>) -> AuthResult {
    match registry {
        RegistryLookup::DoesNotServeHost => AuthResult::Available,
        RegistryLookup::ServedBy { client_id } => if client_id@ == client {
            AuthResult::ReservedByYou
        } else {
            AuthResult::ReservedByOther
        },
        RegistryLookup::Unavailable => AuthResult::Available,
    }
}

/// The whole negotiation of a requested name for `client`, given what the
/// registry reports.
pub open spec fn negotiation(
    requested: Seq<char>,
    blocked: Seq<Seq<char>>,
    client: Seq<char>,
    registry: RegistryLookup,
) -> Result<Seq<char>, ServerHello> {
    match screen(lowercase_of(requested), blocked) {
        Err(e) => Err(e),
        Ok(s) => if ownership(registry, client) == AuthResult::ReservedByOther {
            Err(ServerHello::SubDomainInUse)
        } else {
            Ok(s)
        },
    }
}

fn is_well_formed(s: &str) -> (r: bool)
    ensures
        r == well_formed_sub_domain(s@),
{
    broadcast use vstd::string::group_string_axioms;

    let mut ok = true;
    for c in it: s.chars()
        invariant
            it.seq() == s@,
            ok == (forall|i: int| 0 <= i < it.index() ==> is_sub_domain_char(#[trigger] s@[i])),
    {
        ok = ok && (('a' <= c && c <= 'z') || ('0' <= c && c <= '9') || c == '-');
    }
    ok
}

fn contains_name(names: &Vec<String>, s: &String) -> (r: bool)
    ensures
        r == names_of(names@).contains(s@),
{
    let mut i: usize = 0;
    while i < names.len()
        invariant
            i <= names@.len(),
            forall|j: int| 0 <= j < i ==> names@[j]@ != s@,
        decreases names@.len() - i,
    {
        if names[i] == *s {
            assert(names_of(names@)[i as int] == s@);
            return true;
        }
        i = i + 1;
    }
    proof {
        if names_of(names@).contains(s@) {
            let k = choose|k: int| 0 <= k < names_of(names@).len() && names_of(names@)[k] == s@;
            assert(names@[k]@ == s@);
        }
    }
    false
}

/// Checks an already lowercased name: it must be well formed and not blocked.
pub fn check_sub_domain(lowered: String, blocked: &Vec<String>) -> (r: Result<
    String,
    ServerHello,
>)
    ensures
        outcome_of(r) == screen(lowered@, names_of(blocked@)),
{
    if !is_well_formed(lowered.as_str()) {
        return Err(ServerHello::InvalidSubDomain);
    }
    if contains_name(blocked, &lowered) {
        return Err(ServerHello::SubDomainInUse);
    }
    Ok(lowered)
}

/// Lowercases a requested name and checks it against the character rule and the
/// blocked names. Blocked names get the same answer as names in use, so a client
/// cannot tell which names are reserved.
pub fn sanitize_sub_domain(requested: &str, blocked: &Vec<String>) -> (r: Result<
    String,
    ServerHello,
>)
    ensures
        outcome_of(r) == screen(lowercase_of(requested@), names_of(blocked@)),
{
    let lowered = to_lowercase(requested);
    check_sub_domain(lowered, blocked)
}

/// Reads a registry report for the requesting client.
pub fn auth_result(registry: &RegistryLookup, client_id: &ClientId) -> (r: AuthResult)
    ensures
        r == ownership(*registry, client_id@),
{
    match registry {
        RegistryLookup::DoesNotServeHost => AuthResult::Available,
        RegistryLookup::ServedBy { client_id: owner } => {
            if *owner == *client_id {
                AuthResult::ReservedByYou
            } else {
                AuthResult::ReservedByOther
            }
        },
        RegistryLookup::Unavailable => AuthResult::Available,
    }
}

/// Settles a screened name against the registry: a name bound to another
/// client is refused, any other report lets it through.
pub fn settle_sub_domain(sub_domain: String, client_id: &ClientId, registry: &RegistryLookup) -> (r:
    Result<String, ServerHello>)
    ensures
        ownership(*registry, client_id@) == AuthResult::ReservedByOther ==> r == Err::<
            String,
            ServerHello,
        >(ServerHello::SubDomainInUse),
        ownership(*registry, client_id@) != AuthResult::ReservedByOther ==> (r matches Ok(s)
            && s@ == sub_domain@),
{
    match auth_result(registry, client_id) {
        AuthResult::ReservedByOther => Err(ServerHello::SubDomainInUse),
        _ => Ok(sub_domain),
    }
}

/// A name holding a character other than `a-z`, `0-9` or `-` once lowercased is
/// refused as invalid, whoever asks and whatever the registry says.
pub proof fn lemma_bad_character_is_invalid(
    requested: Seq<char>,
    blocked: Seq<Seq<char>>,
    client: Seq<char>,
    registry: RegistryLookup,
    i: int,
)
    requires
        0 <= i < lowercase_of(requested).len(),
        !is_sub_domain_char(lowercase_of(requested)[i]),
    ensures
        negotiation(requested, blocked, client, registry) == Err::<Seq<char>, ServerHello>(
            ServerHello::InvalidSubDomain,
        ),
{
}

/// A well-formed name on the blocked list is refused as in use, whoever asks
/// and whatever the registry says.
pub proof fn lemma_blocked_is_in_use(
    requested: Seq<char>,
    blocked: Seq<Seq<char>>,
    client: Seq<char>,
    registry: RegistryLookup,
)
    requires
        well_formed_sub_domain(lowercase_of(requested)),
        blocked.contains(lowercase_of(requested)),
    ensures
        negotiation(requested, blocked, client, registry) == Err::<Seq<char>, ServerHello>(
            ServerHello::SubDomainInUse,
        ),
{
}

/// For a name that passes the screen: when it is bound to client `a`, `a` gets
/// it back and any other client `b` is refused as in use; when it is unbound,
/// anyone gets it.
pub proof fn lemma_binding_decides(
    requested: Seq<char>,
    blocked: Seq<Seq<char>>,
    a: ClientId,
    b: Seq<char>,
)
    requires
        screen(lowercase_of(requested), blocked) is Ok,
        b != a@,
    ensures
        negotiation(requested, blocked, a@, RegistryLookup::ServedBy { client_id: a }) == Ok::<
            Seq<char>,
            ServerHello,
        >(lowercase_of(requested)),
        negotiation(requested, blocked, b, RegistryLookup::ServedBy { client_id: a }) == Err::<
            Seq<char>,
            ServerHello,
        >(ServerHello::SubDomainInUse),
        negotiation(requested, blocked, b, RegistryLookup::DoesNotServeHost) == Ok::<
            Seq<char>,
            ServerHello,
        >(lowercase_of(requested)),
        negotiation(requested, blocked, a@, RegistryLookup::DoesNotServeHost) == Ok::<
            Seq<char>,
            ServerHello,
        >(lowercase_of(requested)),
{
}

} // verus!
