//! The state of the connection to the Honcho service.
use vstd::prelude::*;

verus! {

/// Whether the application is connected, and why not when it failed.
#[derive(Clone, Debug, PartialEq, Eq)]
pub enum ConnectionState {
    Disconnected,
    Connecting,
    Connected,
    Failed { code: String, message: String, retryable: bool },
}

impl Default for ConnectionState {
    fn default() -> (r: Self)
        ensures
            r == ConnectionState::Disconnected,
    {
        ConnectionState::Disconnected
    }
}

} // verus!
