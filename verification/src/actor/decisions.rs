//! Decisions the command handlers make before they call the service.
use vstd::prelude::*;
use vstd::string::StringExecFns;
use crate::error::{AppError, AppResult};

verus! {

/// Whose conclusions a request is about.
#[derive(Clone, Debug, PartialEq, Eq)]
pub enum ConclusionScope {
    /// The observer's conclusions about itself.
    Own,
    /// The observer's conclusions about the named peer.
    Of(String),
}

/// The scope of listing, querying or deleting conclusions: the observer's own
/// when observer and observed are the same peer, else those about the observed.
pub fn conclusion_scope(observer_id: &str, observed_id: &str) -> (r: ConclusionScope)
    ensures
        observer_id@ == observed_id@ ==> r == ConclusionScope::Own,
        observer_id@ != observed_id@ ==> (r matches ConclusionScope::Of(o) && o@ == observed_id@),
{
    if crate::text::str_eq(observer_id, observed_id) {
        ConclusionScope::Own
    } else {
        ConclusionScope::Of(String::from_str(observed_id))
    }
}

/// The scope of a new conclusion of `peer_id`: about the observed peer when
/// one is given and differs from `peer_id`, else about itself.
pub fn creation_scope(peer_id: &str, observed_id: Option<&str>) -> (r: ConclusionScope)
    ensures
        match observed_id {
            Some(o) => if o@ != peer_id@ {
                r matches ConclusionScope::Of(x) && x@ == o@
            } else {
                r == ConclusionScope::Own
            },
            None => r == ConclusionScope::Own,
        },
{
    match observed_id {
        Some(o) => if !crate::text::str_eq(o, peer_id) {
            ConclusionScope::Of(String::from_str(o))
        } else {
            ConclusionScope::Own
        },
        None => ConclusionScope::Own,
    }
}

/// A page number or size as the conclusions listing takes it: the value when it
/// fits in `u32`, else `u32::MAX`.
pub fn clamp_to_u32(v: u64) -> (r: u32)
    ensures
        v <= u32::MAX ==> r == v,
        v > u32::MAX ==> r == u32::MAX,
{
    if v <= u32::MAX as u64 {
        v as u32
    } else {
        u32::MAX
    }
}

/// The number of results a search asks for: the given limit, or 25.
pub fn search_limit(limit: Option<u32>) -> (r: u32)
    ensures
        r == match limit {
            Some(l) => l,
            None => 25,
        },
{
    match limit {
        Some(l) => l,
        None => 25,
    }
}

/// The observer and the optional session of a dream request: an observer is
/// required, and an empty session id means the whole workspace.
pub fn dream_target(session_id: &str, observer_id: Option<String>) -> (r: AppResult<
    (String, Option<String>),
>)
    ensures
        match observer_id {
            None => r matches Err(AppError::Validation(m)) && m@
                == "observer_id required for schedule_dream"@,
            Some(o) => r matches Ok((obs, sess)) && obs == o && if session_id@.len() == 0 {
                sess is None
            } else {
                sess matches Some(s) && s@ == session_id@
            },
        },
{
    let observer = match observer_id {
        Some(o) => o,
        None => {
            return Err(
                AppError::Validation(String::from_str("observer_id required for schedule_dream")),
            );
        },
    };
    let session = if session_id.is_empty() {
        None
    } else {
        Some(String::from_str(session_id))
    };
    Ok((observer, session))
}

/// The API key a client is built with: the given key unless it is empty.
pub fn effective_api_key(api_key: Option<&str>) -> (r: Option<String>)
    ensures
        match api_key {
            Some(k) => if k@.len() == 0 {
                r is None
            } else {
                r matches Some(x) && x@ == k@
            },
            None => r is None,
        },
{
    match api_key {
        Some(k) => if k.is_empty() {
            None
        } else {
            Some(String::from_str(k))
        },
        None => None,
    }
}

/// The first item the service returned, or a validation error with the given
/// message when it returned none.
pub fn first_returned<T>(items: Vec<T>, missing: &str) -> (r: AppResult<T>)
    ensures
        items@.len() > 0 ==> (r matches Ok(x) && x == items@[0]),
        items@.len() == 0 ==> (r matches Err(AppError::Validation(m)) && m@ == missing@),
{
    let mut items = items;
    if items.len() == 0 {
        Err(AppError::Validation(String::from_str(missing)))
    } else {
        Ok(items.remove(0))
    }
}

} // verus!
