use vstd::prelude::*;

verus! {

/// Coarse lifecycle of a connection as the server sees it.
#[derive(Debug, Copy, Clone, PartialEq, Eq, Structural)]
pub enum State {
    Uninitialized,
    Initialized,
    LoggedIn,
    Playing,
}

/// The stage of the handshake and login a client has reached.
#[derive(Debug, Copy, Clone, PartialEq, Eq, Structural)]
pub enum ClientState {
    Uninitialized,
    Accepted,
    LoggedIn,
    InGame,
}

} // verus!
