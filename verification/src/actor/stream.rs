//! Relaying a streamed chat reply to the requester: every chunk in order, then
//! either the final reply or the error that ended the stream.
use vstd::prelude::*;

verus! {

/// What the stream of a chat reply produced next.
#[derive(Clone, Copy, Debug, PartialEq, Eq)]
pub enum StreamItem {
    /// A chunk of text.
    Text,
    /// An error; the stream is over.
    Error,
    /// The end of the stream.
    Exhausted,
}

/// What the relay sends to the requester for a stream item.
#[derive(Clone, Copy, Debug, PartialEq, Eq)]
pub enum RelayAction {
    /// Forward the chunk.
    SendChunk,
    /// Forward the error.
    SendError,
    /// Send the final reply.
    SendDone,
}

/// The state of a relay: once it is closed it reads nothing more.
#[derive(Clone, Copy, Debug, PartialEq, Eq)]
pub struct StreamRelay {
    pub closed: bool,
}

/// The message sent for an item.
pub open spec fn relay_action_of(item: StreamItem) -> RelayAction {
    match item {
        StreamItem::Text => RelayAction::SendChunk,
        StreamItem::Error => RelayAction::SendError,
        StreamItem::Exhausted => RelayAction::SendDone,
    }
}

impl StreamRelay {
    /// An open relay.
    pub fn new() -> (r: Self)
        ensures
            !r.closed,
    {
        StreamRelay { closed: false }
    }

    /// What to send for the next item of the stream. An error or the end of
    /// the stream closes the relay, so after an error no final reply is sent.
    pub fn on_item(&mut self, item: StreamItem) -> (r: RelayAction)
        requires
            !old(self).closed,
        ensures
            r == relay_action_of(item),
            final(self).closed == (item != StreamItem::Text),
    {
        match item {
            StreamItem::Text => RelayAction::SendChunk,
            StreamItem::Error => {
                self.closed = true;
                RelayAction::SendError
            },
            StreamItem::Exhausted => {
                self.closed = true;
                RelayAction::SendDone
            },
        }
    }

    /// Records whether the requester received what was sent; when it has gone,
    /// the relay closes.
    pub fn on_delivery(&mut self, delivered: bool)
        ensures
            final(self).closed == (old(self).closed || !delivered),
    {
        if !delivered {
            self.closed = true;
        }
    }
}

} // verus!
