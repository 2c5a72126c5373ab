//! API keys kept in the system keychain: under which entry, and how the
//! keychain's answers read.
use vstd::prelude::*;
use vstd::string::StringExecFns;
use crate::error::{AppError, AppResult};

verus! {

/// The keychain service under which API keys are kept.
pub const KEYRING_SERVICE: &'static str = "dev.taicho";

/// The keychain user name of a profile's API key: the profile id followed by
/// `/api_key`.
pub open spec fn api_key_user_of(profile_id: Seq<char>) -> Seq<char> {
    profile_id + "/api_key"@
}

/// The keychain user name of a profile's API key.
pub fn api_key_user(profile_id: &str) -> (r: String)
    ensures
        r@ == api_key_user_of(profile_id@),
{
    String::from_str(profile_id).concat("/api_key")
}

/// Different profiles keep their keys under different keychain entries.
pub proof fn lemma_api_key_user_injective(a: Seq<char>, b: Seq<char>)
    requires
        api_key_user_of(a) == api_key_user_of(b),
    ensures
        a == b,
{
    let s = "/api_key"@;
    assert(api_key_user_of(a).len() == a.len() + s.len());
    assert(api_key_user_of(b).len() == b.len() + s.len());
    assert(a.len() == b.len());
    assert forall|i: int| 0 <= i < a.len() implies a[i] == b[i] by {
        assert(api_key_user_of(a)[i] == a[i]);
        assert(api_key_user_of(b)[i] == b[i]);
    }
    assert(a =~= b);
}

/// What the keychain answered to a request on an entry.
pub enum KeychainAnswer<T> {
    /// The request succeeded with this value.
    Done(T),
    /// The entry does not exist.
    NoEntry,
    /// The keychain failed; the text describes how.
    Failed(String),
}

/// The stored API key from the keychain's answer to a read: the key when it
/// has one, nothing when there is no entry, a keychain error otherwise.
pub fn api_key_from_answer(answer: KeychainAnswer<String>) -> (r: AppResult<Option<String>>)
    ensures
        match answer {
            KeychainAnswer::Done(k) => r == Ok::<Option<String>, AppError>(Some(k)),
            KeychainAnswer::NoEntry => r == Ok::<Option<String>, AppError>(None),
            KeychainAnswer::Failed(d) => r matches Err(AppError::Keyring(t)) && t == d,
        },
{
    match answer {
        KeychainAnswer::Done(k) => Ok(Some(k)),
        KeychainAnswer::NoEntry => Ok(None),
        KeychainAnswer::Failed(d) => Err(AppError::Keyring(d)),
    }
}

/// The outcome of deleting an API key from the keychain's answer: deleting an
/// entry that does not exist succeeds too.
pub fn deletion_from_answer(answer: KeychainAnswer<()>) -> (r: AppResult<()>)
    ensures
        match answer {
            KeychainAnswer::Failed(d) => r matches Err(AppError::Keyring(t)) && t == d,
            _ => r is Ok,
        },
{
    match answer {
        KeychainAnswer::Failed(d) => Err(AppError::Keyring(d)),
        _ => Ok(()),
    }
}

/// The text the keychain gives for a missing entry.
pub open spec fn no_entry_text() -> Seq<char> {
    "No matching credential found"@
}

/// The outcome of storing an API key from the keychain's answer: a missing
/// entry is an error like any other, with the keychain's text for it.
pub fn storage_from_answer(answer: KeychainAnswer<()>) -> (r: AppResult<()>)
    ensures
        match answer {
            KeychainAnswer::Done(()) => r is Ok,
            KeychainAnswer::NoEntry => r matches Err(AppError::Keyring(t)) && t@ == no_entry_text(),
            KeychainAnswer::Failed(d) => r matches Err(AppError::Keyring(t)) && t == d,
        },
{
    match answer {
        KeychainAnswer::Done(()) => Ok(()),
        KeychainAnswer::NoEntry => Err(AppError::Keyring(String::from_str("No matching credential found"))),
        KeychainAnswer::Failed(d) => Err(AppError::Keyring(d)),
    }
}

} // verus!
