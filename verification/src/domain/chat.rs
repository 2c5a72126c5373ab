//! The messages of a chat with a peer.
use vstd::prelude::*;

verus! {

/// Who wrote a chat message.
#[derive(Clone, Copy, Debug, PartialEq, Eq, Structural)]
pub enum ChatRole {
    User,
    Assistant,
    System,
    Unknown,
}

/// One message of a chat.
#[derive(Clone, Debug)]
pub struct ChatMessage {
    pub peer_id: String,
    pub content: String,
    pub role: ChatRole,
    /// When the message was written, as an RFC 3339 timestamp.
    pub created_at: String,
    pub token_count: u64,
}

} // verus!
