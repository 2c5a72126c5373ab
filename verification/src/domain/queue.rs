//! The state of the server's background work queue.
use vstd::prelude::*;

verus! {

/// Counts of the work units in the queue.
#[derive(Clone, Debug, PartialEq, Eq)]
pub struct QueueStatus {
    pub pending: u64,
    pub running: u64,
    pub completed: u64,
    pub sessions: u64,
    /// When the counts were read, in milliseconds since the Unix epoch (UTC).
    pub last_updated: Option<i64>,
}

impl QueueStatus {
    /// Total work units (pending + running + completed). Does NOT include sessions.
    pub fn total(&self) -> (r: u64)
        requires
            self.pending + self.running + self.completed <= u64::MAX,
        ensures
            r == self.pending + self.running + self.completed,
    {
        self.pending + self.running + self.completed
    }

    /// Whether there is no work unit at all.
    pub fn is_empty(&self) -> (r: bool)
        requires
            self.pending + self.running + self.completed <= u64::MAX,
        ensures
            r == (self.pending + self.running + self.completed == 0),
    {
        self.total() == 0
    }
}

impl Default for QueueStatus {
    fn default() -> (r: Self)
        ensures
            r.pending == 0 && r.running == 0 && r.completed == 0 && r.sessions == 0,
            r.last_updated is None,
    {
        QueueStatus { pending: 0, running: 0, completed: 0, sessions: 0, last_updated: None }
    }
}

} // verus!
