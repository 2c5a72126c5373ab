//! Conclusions one peer has drawn about another.
use vstd::prelude::*;

verus! {

/// One conclusion as listed.
#[derive(Debug, Clone, PartialEq, Eq)]
pub struct ConclusionRow {
    pub id: String,
    pub content: String,
    pub observer_id: String,
    pub observed_id: String,
    pub session_id: Option<String>,
    pub created_at: String,
}

/// What the user enters to create a conclusion.
#[derive(Debug, Clone, PartialEq, Eq)]
pub struct ConclusionInput {
    pub content: String,
}

} // verus!
