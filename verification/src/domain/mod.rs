//! Domain records shown by the inspector and the rules that belong to them.
pub mod chat;
pub mod conclusion;
pub mod page;
pub mod peer;
pub mod queue;
pub mod search;
pub mod session;
pub mod upload;

pub use chat::{ChatMessage, ChatRole};
pub use conclusion::{ConclusionInput, ConclusionRow};
pub use page::{DomainPage, PageInfo};
pub use peer::{PeerContextView, PreviewMessage};
pub use queue::QueueStatus;
pub use search::SearchScope;
pub use session::{
    SessionContextView, SessionPeerRow, SessionSummariesView, SummaryKind, SummaryView,
};
pub use upload::FileSource;

use vstd::prelude::*;

verus! {

/// The workspace the inspector is connected to.
#[derive(Clone, Debug, PartialEq, Eq)]
pub struct WorkspaceInfo {
    pub id: String,
    pub base_url: String,
}

} // verus!
