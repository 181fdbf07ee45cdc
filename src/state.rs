//! State shared by the host application.
use vstd::prelude::*;
use crate::connection::Phase;

verus! {

/// The host's view of the relay.
pub struct AppState {
    /// The connections that have been greeted and have not closed yet.
    pub connected_clients: usize,
}

impl AppState {
    /// A state with no connection open.
    pub fn new() -> (r: Self)
        ensures
            r.connected_clients == 0,
    {
        AppState { connected_clients: 0 }
    }

    /// The number of connections greeted and not yet closed.
    pub fn connection_count(&self) -> (r: usize)
        ensures
            r == self.connected_clients,
    {
        self.connected_clients
    }

    /// Counts a connection's move from phase `before` to phase `after`: one
    /// more client when it starts streaming, one fewer when it stops.
    pub fn record_transition(&mut self, before: Phase, after: Phase)
        requires
            before != Phase::Streaming && after == Phase::Streaming ==> old(self).connected_clients
                < usize::MAX,
            before == Phase::Streaming && after != Phase::Streaming ==> old(self).connected_clients
                > 0,
        ensures
            final(self).connected_clients == if before != Phase::Streaming && after == Phase::Streaming {
                old(self).connected_clients + 1
            } else if before == Phase::Streaming && after != Phase::Streaming {
                old(self).connected_clients - 1
            } else {
                old(self).connected_clients as int
            },
    {
        if before != Phase::Streaming && after == Phase::Streaming {
            self.connected_clients = self.connected_clients + 1;
        } else if before == Phase::Streaming && after != Phase::Streaming {
            self.connected_clients = self.connected_clients - 1;
        }
    }
}

} // verus!
