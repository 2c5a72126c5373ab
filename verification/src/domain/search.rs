//! The scope of a message search.
use vstd::prelude::*;

verus! {

/// Where a message search looks.
#[derive(Clone, Debug, PartialEq, Eq)]
pub enum SearchScope {
    Workspace,
    Peer(String),
    Session(String),
}

} // verus!
