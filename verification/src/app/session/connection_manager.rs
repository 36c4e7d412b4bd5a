//! The lifecycle of one terminal connection: its state, its cancel flag,
//! and whether a backend is attached. The owner holds the backend itself
//! and does its I/O.

use vstd::prelude::*;

use crate::entities::{ConnectionError, ConnectionState, DisconnectReason};

verus! {

/// The state of one terminal connection.
pub struct ConnectionManager {
    state: ConnectionState,
    cancelled: bool,
    has_connection: bool,
}

impl ConnectionManager {
    /// The connection's state.
    pub closed spec fn state_spec(&self) -> ConnectionState {
        self.state
    }

    /// Whether the connection was cancelled.
    pub closed spec fn cancelled_spec(&self) -> bool {
        self.cancelled
    }

    /// Whether a backend is attached.
    pub closed spec fn attached_spec(&self) -> bool {
        self.has_connection
    }

    /// An idle manager with no backend.
    pub fn new() -> (r: ConnectionManager)
        ensures
            r.state_spec() == ConnectionState::Idle,
            !r.cancelled_spec(),
            !r.attached_spec(),
    {
        ConnectionManager { state: ConnectionState::Idle, cancelled: false, has_connection: false }
    }

    /// The connection's state.
    pub fn state(&self) -> (r: ConnectionState)
        ensures
            r == self.state_spec(),
    {
        self.state
    }

    /// Whether the connection is up.
    pub fn is_connected(&self) -> (r: bool)
        ensures
            r == self.state_spec().active(),
    {
        self.state.is_active()
    }

    /// Whether the connection was cancelled.
    pub fn is_cancelled(&self) -> (r: bool)
        ensures
            r == self.cancelled_spec(),
    {
        self.cancelled
    }

    /// Cancels the connection's work.
    pub fn cancel(&mut self)
        ensures
            final(self).cancelled_spec(),
            final(self).state_spec() == old(self).state_spec(),
            final(self).attached_spec() == old(self).attached_spec(),
    {
        self.cancelled = true;
    }

    /// Clears the cancel flag, before a new connection.
    pub fn reset_cancelled(&mut self)
        ensures
            !final(self).cancelled_spec(),
            final(self).state_spec() == old(self).state_spec(),
            final(self).attached_spec() == old(self).attached_spec(),
    {
        self.cancelled = false;
    }

    /// Marks an up connection as ended for `reason`; in any other state
    /// nothing changes.
    pub fn mark_disconnected(&mut self, reason: DisconnectReason)
        ensures
            final(self).state_spec() == if old(self).state_spec().active() {
                ConnectionState::Disconnected { reason }
            } else {
                old(self).state_spec()
            },
            final(self).cancelled_spec() == old(self).cancelled_spec(),
            final(self).attached_spec() == old(self).attached_spec(),
    {
        if self.state.is_active() {
            self.state = ConnectionState::Disconnected { reason };
        }
    }

    /// `mark_disconnected` because the server closed the connection.
    pub fn mark_disconnected_by_server(&mut self)
        ensures
            final(self).state_spec() == if old(self).state_spec().active() {
                ConnectionState::Disconnected { reason: DisconnectReason::ServerClosed }
            } else {
                old(self).state_spec()
            },
            final(self).cancelled_spec() == old(self).cancelled_spec(),
            final(self).attached_spec() == old(self).attached_spec(),
    {
        self.mark_disconnected(DisconnectReason::ServerClosed);
    }

    /// A backend was attached at `now_ms`: the cancel flag clears and the
    /// connection is up since then.
    pub fn set_connection(&mut self, now_ms: u64)
        ensures
            !final(self).cancelled_spec(),
            final(self).attached_spec(),
            final(self).state_spec() == (ConnectionState::Connected { connected_at_ms: now_ms }),
    {
        self.reset_cancelled();
        self.has_connection = true;
        self.state = ConnectionState::Connected { connected_at_ms: now_ms };
    }

    /// Whether data can be written or the remote terminal resized: there
    /// must be a backend.
    pub fn check_attached(&self) -> (r: Result<(), ConnectionError>)
        ensures
            r matches Ok(()) <==> self.attached_spec(),
            r matches Err(e) ==> e is Disconnected,
    {
        if self.has_connection {
            Ok(())
        } else {
            Err(ConnectionError::Disconnected)
        }
    }

    /// Closes the connection: cancelled, backend detached, ended by the
    /// user.
    pub fn close(&mut self)
        ensures
            final(self).cancelled_spec(),
            !final(self).attached_spec(),
            final(self).state_spec() == (ConnectionState::Disconnected {
                reason: DisconnectReason::UserInitiated,
            }),
    {
        self.cancel();
        self.has_connection = false;
        self.state = ConnectionState::Disconnected { reason: DisconnectReason::UserInitiated };
    }
}

impl Default for ConnectionManager {
    fn default() -> (r: Self)
        ensures
            r.state_spec() == ConnectionState::Idle,
            !r.cancelled_spec(),
            !r.attached_spec(),
    {
        ConnectionManager::new()
    }
}

} // verus!
