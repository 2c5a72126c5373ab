//! Session summaries and their kinds.
use vstd::prelude::*;

verus! {

/// The kind of a session summary.
#[derive(Debug, Clone, Copy, PartialEq, Eq)]
pub enum SummaryKind {
    Short,
    Long,
    Unknown,
}

/// The kind named by a text: `short` and `long` name theirs, any other text
/// names `Unknown`.
pub open spec fn summary_kind_of(s: Seq<char>) -> SummaryKind {
    if s == "short"@ {
        SummaryKind::Short
    } else if s == "long"@ {
        SummaryKind::Long
    } else {
        SummaryKind::Unknown
    }
}

/// The name of a kind: `short`, `long` or `unknown`.
pub open spec fn summary_kind_name(k: SummaryKind) -> Seq<char> {
    match k {
        SummaryKind::Short => "short"@,
        SummaryKind::Long => "long"@,
        SummaryKind::Unknown => "unknown"@,
    }
}

impl SummaryKind {
    /// The kind named by `s`; unrecognised names give `Unknown`.
    pub fn from_str_lossy(s: &str) -> (r: Self)
        ensures
            r == summary_kind_of(s@),
    {
        if crate::text::str_eq(s, "short") {
            SummaryKind::Short
        } else if crate::text::str_eq(s, "long") {
            SummaryKind::Long
        } else {
            SummaryKind::Unknown
        }
    }

    /// The name of the kind.
    pub fn as_str(&self) -> (r: &'static str)
        ensures
            r@ == summary_kind_name(*self),
    {
        match self {
            SummaryKind::Short => "short",
            SummaryKind::Long => "long",
            SummaryKind::Unknown => "unknown",
        }
    }
}

/// Reading back the name of any kind gives that kind.
pub proof fn lemma_summary_kind_round_trip(k: SummaryKind)
    ensures
        summary_kind_of(summary_kind_name(k)) == k,
{
    reveal_strlit("short");
    reveal_strlit("long");
    reveal_strlit("unknown");
    assert("short"@.len() == 5 && "long"@.len() == 4 && "unknown"@.len() == 7);
}

/// The summaries of a session.
#[derive(Debug, Clone, PartialEq, Eq)]
pub struct SessionSummariesView {
    pub id: String,
    pub short_summary: Option<SummaryView>,
    pub long_summary: Option<SummaryView>,
}

/// One summary of a session.
#[derive(Debug, Clone, PartialEq, Eq)]
pub struct SummaryView {
    pub content: String,
    pub message_id: String,
    pub summary_type: SummaryKind,
    pub created_at: String,
    pub token_count: u32,
}

/// The summaries of a session when it has at least one, else `None`.
pub fn summaries_if_any(summaries: SessionSummariesView) -> (r: Option<SessionSummariesView>)
    ensures
        (summaries.short_summary is Some || summaries.long_summary is Some) ==> r == Some(
            summaries,
        ),
        (summaries.short_summary is None && summaries.long_summary is None) ==> r is None,
{
    if summaries.short_summary.is_some() || summaries.long_summary.is_some() {
        Some(summaries)
    } else {
        None
    }
}

/// The context the server assembles for a session.
#[derive(Debug, Clone, PartialEq, Eq)]
pub struct SessionContextView {
    pub id: String,
    pub messages_count: usize,
    pub has_summary: bool,
    pub peer_representation: Option<String>,
    pub peer_card: Option<Vec<String>>,
}

/// A peer of a session and how it observes.
#[derive(Debug, Clone, PartialEq, Eq)]
pub struct SessionPeerRow {
    pub id: String,
    pub observe_me: Option<bool>,
    pub observe_others: Option<bool>,
}

} // verus!
