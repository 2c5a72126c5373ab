//! The search palette: which request a search form makes, and what the
//! palette shows for the answer.
use vstd::prelude::*;
use vstd::string::StringExecFns;

use crate::domain::search::SearchScope;
use crate::error::{user_message_of, AppError};
use crate::numeric::{parse_u32, parsed_u32};
use crate::text::{str_eq, trim, trim_spec};

verus! {

/// The scope picked in the palette's selector, before an id is typed.
#[derive(Clone, Copy, Debug, PartialEq, Eq)]
pub enum ScopeChoice {
    Workspace,
    Peer,
    Session,
}

/// The scope that a value of the selector stands for; any value but `peer`
/// and `session` stands for the workspace.
pub open spec fn scope_choice_of(value: Seq<char>) -> ScopeChoice {
    if value == "peer"@ {
        ScopeChoice::Peer
    } else if value == "session"@ {
        ScopeChoice::Session
    } else {
        ScopeChoice::Workspace
    }
}

/// The scope that a value of the selector stands for.
pub fn scope_choice(value: &str) -> (r: ScopeChoice)
    ensures
        r == scope_choice_of(value@),
{
    if str_eq(value, "peer") {
        ScopeChoice::Peer
    } else if str_eq(value, "session") {
        ScopeChoice::Session
    } else {
        ScopeChoice::Workspace
    }
}

/// The hint in the id field of a scope.
pub fn scope_id_placeholder(choice: ScopeChoice) -> (r: &'static str)
    ensures
        r@ == match choice {
            ScopeChoice::Peer => "Peer ID"@,
            ScopeChoice::Session => "Session ID"@,
            ScopeChoice::Workspace => ""@,
        },
{
    match choice {
        ScopeChoice::Peer => "Peer ID",
        ScopeChoice::Session => "Session ID",
        ScopeChoice::Workspace => "",
    }
}

/// The result limit of a search when its field holds no number.
pub const DEFAULT_SEARCH_LIMIT: u32 = 25;

/// The limit typed in the limit field: the number it holds, else 25.
pub fn parse_limit(text: &str) -> (r: u32)
    ensures
        r == match parsed_u32(text@) {
            Some(n) => n,
            None => DEFAULT_SEARCH_LIMIT,
        },
{
    match parse_u32(text) {
        Some(n) => n,
        None => DEFAULT_SEARCH_LIMIT,
    }
}

/// What submitting the palette's form does.
#[derive(Clone, Debug, PartialEq, Eq)]
pub enum SearchStep {
    /// Nothing: the query is blank.
    Skip,
    /// Nothing is sent and the message is shown as an error.
    Refuse(String),
    /// The search to send.
    Send { scope: SearchScope, query: String, limit: u32 },
}

/// `r` is what submitting the form does: a blank query does nothing; a peer
/// or session scope with no id is refused; else the query is sent as typed.
pub open spec fn is_search_step(
    r: SearchStep,
    query: Seq<char>,
    choice: ScopeChoice,
    scope_id: Seq<char>,
    limit: u32,
) -> bool {
    if trim_spec(query).len() == 0 {
        r is Skip
    } else {
        match choice {
            ScopeChoice::Workspace => r matches SearchStep::Send { scope, query: q, limit: l }
                && scope is Workspace && q@ == query && l == limit,
            ScopeChoice::Peer => if scope_id.len() == 0 {
                r matches SearchStep::Refuse(m) && m@ == "Peer ID required for peer scope"@
            } else {
                r matches SearchStep::Send { scope: SearchScope::Peer(id), query: q, limit: l }
                    && id@ == scope_id && q@ == query && l == limit
            },
            ScopeChoice::Session => if scope_id.len() == 0 {
                r matches SearchStep::Refuse(m) && m@ == "Session ID required for session scope"@
            } else {
                r matches SearchStep::Send { scope: SearchScope::Session(id), query: q, limit: l }
                    && id@ == scope_id && q@ == query && l == limit
            },
        }
    }
}

/// What submitting the palette's form does.
pub fn plan_search(query: &str, choice: ScopeChoice, scope_id: &str, limit: u32) -> (r: SearchStep)
    ensures
        is_search_step(r, query@, choice, scope_id@, limit),
{
    if trim(query).unicode_len() == 0 {
        return SearchStep::Skip;
    }
    let q = String::from_str(query);
    match choice {
        ScopeChoice::Workspace => SearchStep::Send { scope: SearchScope::Workspace, query: q, limit },
        ScopeChoice::Peer => {
            if scope_id.unicode_len() == 0 {
                let m = String::from_str("Peer ID required for peer scope");
                SearchStep::Refuse(m)
            } else {
                let id = String::from_str(scope_id);
                SearchStep::Send { scope: SearchScope::Peer(id), query: q, limit }
            }
        },
        ScopeChoice::Session => {
            if scope_id.unicode_len() == 0 {
                let m = String::from_str("Session ID required for session scope");
                SearchStep::Refuse(m)
            } else {
                let id = String::from_str(scope_id);
                SearchStep::Send { scope: SearchScope::Session(id), query: q, limit }
            }
        },
    }
}

/// What the palette shows for the answer to a search.
#[derive(Clone, Debug)]
pub enum SearchOutcome<T> {
    /// The matching rows, at least one.
    Loaded(Vec<T>),
    /// No row matched.
    Empty,
    /// The search failed, or its answer never came.
    Failed { message: String, retryable: bool },
}

/// What the palette shows for `reply`, where `None` means that the answer
/// never came.
pub fn search_outcome<T>(reply: Option<Result<Vec<T>, AppError>>) -> (r: SearchOutcome<T>)
    ensures
        match reply {
            None => r matches SearchOutcome::Failed { message, retryable } && message@
                == "Search cancelled"@ && !retryable,
            Some(Ok(rows)) => if rows@.len() == 0 {
                r is Empty
            } else {
                r == SearchOutcome::Loaded(rows)
            },
            Some(Err(e)) => r matches SearchOutcome::Failed { message, retryable } && message@
                == user_message_of(e) && retryable == (e matches AppError::Honcho(f)
                && f.retryable),
        },
{
    match reply {
        None => SearchOutcome::Failed {
            message: String::from_str("Search cancelled"),
            retryable: false,
        },
        Some(Ok(rows)) => {
            if rows.len() == 0 {
                SearchOutcome::Empty
            } else {
                SearchOutcome::Loaded(rows)
            }
        },
        Some(Err(e)) => SearchOutcome::Failed { message: e.user_message(), retryable: e.is_retryable() },
    }
}

} // verus!
