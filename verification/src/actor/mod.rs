//! The command actor: which handler serves each command, the connection state
//! machine, the relay of streamed chat replies, and the small decisions the
//! handlers make before they call the service.
pub mod decisions;
pub mod protocol;
pub mod stream;

pub use protocol::{ActorAction, ActorEvent, ActorState, ChatOpts, CmdKind, Handler};
