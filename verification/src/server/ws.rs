//! Per-connection state for the persistent transport.  The transport
//! itself lives outside the library; it parses frames, calls the shared
//! dispatcher, and writes every response through one serialized writer.

use vstd::prelude::*;

verus! {

/// State a persistent connection keeps for its lifetime.
pub struct ClientState {}

impl ClientState {
    /// A fresh connection state.
    pub fn new() -> (s: Self) {
        ClientState {  }
    }
}

impl Default for ClientState {
    /// Same as `new`.
    fn default() -> (s: Self) {
        ClientState::new()
    }
}

} // verus!
