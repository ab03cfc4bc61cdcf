//! Reading the account directory's answer to a lookup by hashed credential.
use vstd::prelude::*;

verus! {

/// The 128-bit value of a UUID written as text, or `None` where the text is
/// not a UUID.
pub uninterp spec fn uuid_value_of(s: Seq<char>) -> Option<u128>;

/// Relies on uuid's `Uuid::from_str` (which calls `Uuid::parse_str`) and
/// `Uuid::as_u128`: the value depends on the text alone.
#[verifier::external_body]
fn parse_uuid(s: &str) -> (r: Option<u128>)
    ensures
        r == uuid_value_of(s@),
{
    match <uuid::Uuid as std::str::FromStr>::from_str(s) {
        Ok(id) => Some(id.as_u128()),
        Err(_) => None,
    }
}

/// The canonical identifier of an account, a UUID.
#[derive(Clone, Copy, Debug, PartialEq, Eq, Structural)]
pub struct AccountId {
    pub value: u128,
}

/// Why no account was found for a credential.
#[derive(Debug)]
pub enum Error {
    /// The directory itself could not be reached or refused the request.
    AuthDbGetItem(String),
    /// No record, or a record without an account id.
    AccountNotFound,
    /// The record's account id is not a UUID.
    InvalidAccountId,
    /// The subdomain is not authorized.
    SubdomainNotAuthorized,
}

/// What the directory answered to a point lookup.
pub enum DirectoryReply {
    /// The request failed, with the backend's message.
    Unavailable(String),
    /// No record is filed under the key.
    NoItem,
    /// A record, with its account id attribute as text if it has one.
    Item { account_id: Option<String> },
}

/// Turns the directory's answer into an account id. A failed request is
/// reported as such; a missing record or attribute, and an attribute that is
/// not a UUID, are each an authentication failure of its own kind.
pub fn account_id_from_reply(reply: DirectoryReply) -> (r: Result<AccountId, Error>)
    ensures
        reply matches DirectoryReply::Unavailable(m) ==> (r matches Err(Error::AuthDbGetItem(e))
            && e@ == m@),
        reply matches DirectoryReply::NoItem ==> r matches Err(Error::AccountNotFound),
        reply matches DirectoryReply::Item { account_id: None } ==> r matches Err(
            Error::AccountNotFound,
        ),
        reply matches DirectoryReply::Item { account_id: Some(s) } ==> match uuid_value_of(s@) {
            Some(v) => r matches Ok(a) && a.value == v,
            None => r matches Err(Error::InvalidAccountId),
        },
{
    match reply {
        DirectoryReply::Unavailable(m) => Err(Error::AuthDbGetItem(m)),
        DirectoryReply::NoItem => Err(Error::AccountNotFound),
        DirectoryReply::Item { account_id: None } => Err(Error::AccountNotFound),
        DirectoryReply::Item { account_id: Some(s) } => match parse_uuid(s.as_str()) {
            Some(v) => Ok(AccountId { value: v }),
            None => Err(Error::InvalidAccountId),
        },
    }
}

} // verus!
