//! What the library makes of the answers of the secret store that holds the
//! API token and the appearance preference. Reading and writing the store is
//! the caller's part.

use vstd::prelude::*;

verus! {

/// Service name under which the secrets are kept.
pub const SERVICE_NAME: &'static str = "cloudflare-admin";

/// Key of the API token.
pub const TOKEN_KEY: &'static str = "api_token";

/// Key of the appearance preference.
pub const APPEARANCE_KEY: &'static str = "appearance_mode";

/// Why the secret store refused an access.
#[derive(Clone, Debug)]
pub enum SecretError {
    /// Nothing is stored under the key.
    NoEntry,
    /// Any other failure, with its description.
    Other(String),
}

/// The secret that a read found: none when nothing is stored under the key,
/// an error for any other failure.
pub fn stored_secret(raw: Result<String, SecretError>) -> (r: Result<Option<String>, String>)
    ensures
        raw matches Ok(v) ==> r == Ok::<Option<String>, String>(Some(v)),
        raw matches Err(SecretError::NoEntry) ==> r == Ok::<Option<String>, String>(None),
        raw matches Err(SecretError::Other(m)) ==> r == Err::<Option<String>, String>(m),
{
    match raw {
        Ok(v) => Ok(Some(v)),
        Err(SecretError::NoEntry) => Ok(None),
        Err(SecretError::Other(m)) => Err(m),
    }
}

/// The outcome of a delete: deleting what is not there succeeds.
pub fn deletion_outcome(raw: Result<(), SecretError>) -> (r: Result<(), String>)
    ensures
        raw is Ok ==> r is Ok,
        raw matches Err(SecretError::NoEntry) ==> r is Ok,
        raw matches Err(SecretError::Other(m)) ==> r == Err::<(), String>(m),
{
    match raw {
        Ok(()) => Ok(()),
        Err(SecretError::NoEntry) => Ok(()),
        Err(SecretError::Other(m)) => Err(m),
    }
}

/// Whether a token is stored, given the outcome of reading it; a failed read
/// counts as no token.
pub fn has_token(lookup: &Result<Option<String>, String>) -> (r: bool)
    ensures
        r == (lookup matches Ok(Some(_))),
{
    match lookup {
        Ok(Some(_)) => true,
        _ => false,
    }
}

} // verus!
