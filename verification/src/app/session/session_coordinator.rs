//! The session coordinator's decisions: when the data pump runs and stops,
//! what each item from the backend does, whether input may be sent, and
//! when the terminal is redrawn (at most about sixty times a second).

use vstd::prelude::*;

use crate::app::session::connection_manager::ConnectionManager;
use crate::app::terminal::terminal_state::{TerminalConfig, DEFAULT_COLS, DEFAULT_ROWS, DEFAULT_SCROLLBACK_LINES};
use crate::entities::{ConnectionError, ConnectionState, DisconnectReason, TerminalSize};

verus! {

/// The least time between two redraws, in milliseconds (about 60 frames a
/// second).
pub const MIN_RENDER_INTERVAL_MS: u64 = 16;

/// What the backend's data stream gave.
#[derive(Debug, Clone, Copy, PartialEq, Eq, Structural)]
pub enum PumpItem {
    /// Bytes, this many.
    Data(usize),
    /// An error; whether it is worth waiting on.
    Error { retryable: bool },
    /// The stream ended.
    End,
    /// Nothing arrived for a while.
    Idle,
}

/// What the data pump does next.
#[derive(Debug, Clone, Copy, PartialEq, Eq, Structural)]
pub enum PumpAction {
    /// Wait for the next item.
    Continue,
    /// Feed the bytes to the terminal, ask for a redraw, and wait on.
    Advance,
    /// Leave the loop.
    Stop,
}

/// `a - b`, or 0 when `b` is larger.
pub open spec fn saturating_diff(a: u64, b: u64) -> int {
    if a >= b {
        a - b
    } else {
        0
    }
}

/// Whether a redraw may happen at `now_ms`, with the given dirty flag and
/// last redraw time.
pub open spec fn render_allowed(dirty: bool, last_ms: u64, now_ms: u64) -> bool {
    dirty && saturating_diff(now_ms, last_ms) >= MIN_RENDER_INTERVAL_MS
}

/// The session's decisions. The owner holds the terminal emulator and the
/// backend and does their work.
pub struct SessionCoordinator {
    connection_manager: ConnectionManager,
    config: TerminalConfig,
    size: TerminalSize,
    data_pump_running: bool,
    data_pump_cancel: bool,
    dirty: bool,
    last_render_ms: u64,
    event_receiver_taken: bool,
}

impl SessionCoordinator {
    /// The connection's state.
    pub closed spec fn manager_spec(&self) -> ConnectionManager {
        self.connection_manager
    }

    /// The terminal's size.
    pub closed spec fn size_spec(&self) -> TerminalSize {
        self.size
    }

    /// The terminal's configuration.
    pub closed spec fn config_spec(&self) -> TerminalConfig {
        self.config
    }

    /// Whether the data pump runs.
    pub closed spec fn running_spec(&self) -> bool {
        self.data_pump_running
    }

    /// Whether the data pump was asked to stop.
    pub closed spec fn cancel_spec(&self) -> bool {
        self.data_pump_cancel
    }

    /// Whether new data waits to be drawn.
    pub closed spec fn dirty_spec(&self) -> bool {
        self.dirty
    }

    /// When the terminal was last redrawn, in milliseconds.
    pub closed spec fn last_render_spec(&self) -> u64 {
        self.last_render_ms
    }

    /// Whether the terminal's event receiver was handed out.
    pub closed spec fn receiver_taken_spec(&self) -> bool {
        self.event_receiver_taken
    }

    /// A coordinator for a terminal configured by `config`, without
    /// connection.
    pub fn new(config: TerminalConfig) -> (r: SessionCoordinator)
        ensures
            r.manager_spec().state_spec() == ConnectionState::Idle,
            !r.manager_spec().attached_spec(),
            !r.manager_spec().cancelled_spec(),
            r.config_spec() == config,
            r.size_spec() == (TerminalSize { rows: config.rows, cols: config.cols }),
            !r.running_spec(),
            !r.cancel_spec(),
            !r.dirty_spec(),
            r.last_render_spec() == 0,
            !r.receiver_taken_spec(),
    {
        SessionCoordinator {
            connection_manager: ConnectionManager::new(),
            config,
            size: config.size(),
            data_pump_running: false,
            data_pump_cancel: false,
            dirty: false,
            last_render_ms: 0,
            event_receiver_taken: false,
        }
    }

    /// A coordinator for an 80×24 terminal.
    pub fn with_defaults() -> (r: SessionCoordinator)
        ensures
            r.size_spec() == (TerminalSize { rows: 24, cols: 80 }),
            r.config_spec() == (TerminalConfig {
                cols: DEFAULT_COLS,
                rows: DEFAULT_ROWS,
                scrollback_lines: DEFAULT_SCROLLBACK_LINES,
            }),
            r.manager_spec().state_spec() == ConnectionState::Idle,
            !r.manager_spec().attached_spec(),
            !r.manager_spec().cancelled_spec(),
            !r.running_spec(),
            !r.cancel_spec(),
            !r.dirty_spec(),
            r.last_render_spec() == 0,
            !r.receiver_taken_spec(),
    {
        SessionCoordinator::new(TerminalConfig::default())
    }

    /// The connection's state holder.
    pub fn connection_manager(&self) -> (r: &ConnectionManager)
        ensures
            *r == self.manager_spec(),
    {
        &self.connection_manager
    }

    /// A backend was attached at `now_ms`.
    pub fn set_connection(&mut self, now_ms: u64)
        ensures
            final(self).manager_spec().state_spec() == (ConnectionState::Connected { connected_at_ms: now_ms }),
            final(self).manager_spec().attached_spec(),
            !final(self).manager_spec().cancelled_spec(),
            final(self).running_spec() == old(self).running_spec(),
            final(self).size_spec() == old(self).size_spec(),
    {
        self.connection_manager.set_connection(now_ms);
    }

    /// The connection's state.
    pub fn connection_state(&self) -> (r: ConnectionState)
        ensures
            r == self.manager_spec().state_spec(),
    {
        self.connection_manager.state()
    }

    /// Whether the connection is up.
    pub fn is_connected(&self) -> (r: bool)
        ensures
            r == self.manager_spec().state_spec().active(),
    {
        self.connection_manager.is_connected()
    }

    /// The terminal's size.
    pub fn terminal_size(&self) -> (r: TerminalSize)
        ensures
            r == self.size_spec(),
    {
        self.size
    }

    /// The terminal's configuration.
    pub fn config(&self) -> (r: TerminalConfig)
        ensures
            r == self.config_spec(),
    {
        self.config
    }

    /// Starts the data pump: refused (`false`) when it already runs;
    /// otherwise it runs, with its stop request cleared.
    pub fn start_data_pump(&mut self) -> (r: bool)
        ensures
            r == !old(self).running_spec(),
            final(self).running_spec(),
            r ==> !final(self).cancel_spec(),
            !r ==> final(self).cancel_spec() == old(self).cancel_spec(),
            final(self).manager_spec() == old(self).manager_spec(),
            final(self).dirty_spec() == old(self).dirty_spec(),
            final(self).last_render_spec() == old(self).last_render_spec(),
    {
        if self.data_pump_running {
            return false;
        }
        self.data_pump_running = true;
        self.data_pump_cancel = false;
        true
    }

    /// What the data pump does with `item`. A stop request ends the loop
    /// first. Bytes are fed to the terminal and mark it for redrawing (no
    /// bytes change nothing); an error that is not worth waiting on ends
    /// the connection as a network failure and the loop; the end of the
    /// stream ends the connection as closed by the server and the loop.
    pub fn on_pump_item(&mut self, item: PumpItem) -> (r: PumpAction)
        ensures
            final(self).running_spec() == old(self).running_spec(),
            final(self).cancel_spec() == old(self).cancel_spec(),
            final(self).last_render_spec() == old(self).last_render_spec(),
            final(self).size_spec() == old(self).size_spec(),
            old(self).cancel_spec() ==> r == PumpAction::Stop && final(self).manager_spec() == old(self).manager_spec()
                && final(self).dirty_spec() == old(self).dirty_spec(),
            !old(self).cancel_spec() ==> match item {
                PumpItem::Data(n) => (if n == 0 {
                    r == PumpAction::Continue && final(self).dirty_spec() == old(self).dirty_spec()
                } else {
                    r == PumpAction::Advance && final(self).dirty_spec()
                }) && final(self).manager_spec() == old(self).manager_spec(),
                PumpItem::Error { retryable } => final(self).dirty_spec() == old(self).dirty_spec() && if retryable {
                    r == PumpAction::Continue && final(self).manager_spec() == old(self).manager_spec()
                } else {
                    r == PumpAction::Stop && final(self).manager_spec().state_spec() == (if old(self).manager_spec().state_spec().active() {
                        ConnectionState::Disconnected { reason: DisconnectReason::NetworkError }
                    } else {
                        old(self).manager_spec().state_spec()
                    })
                },
                PumpItem::End => r == PumpAction::Stop && final(self).dirty_spec() == old(self).dirty_spec()
                    && final(self).manager_spec().state_spec() == (if old(self).manager_spec().state_spec().active() {
                    ConnectionState::Disconnected { reason: DisconnectReason::ServerClosed }
                } else {
                    old(self).manager_spec().state_spec()
                }),
                PumpItem::Idle => r == PumpAction::Continue && final(self).manager_spec() == old(self).manager_spec()
                    && final(self).dirty_spec() == old(self).dirty_spec(),
            },
    {
        if self.data_pump_cancel {
            return PumpAction::Stop;
        }
        match item {
            PumpItem::Data(n) => {
                if n == 0 {
                    PumpAction::Continue
                } else {
                    self.mark_dirty();
                    PumpAction::Advance
                }
            },
            PumpItem::Error { retryable } => {
                if retryable {
                    PumpAction::Continue
                } else {
                    self.connection_manager.mark_disconnected(DisconnectReason::NetworkError);
                    PumpAction::Stop
                }
            },
            PumpItem::End => {
                self.connection_manager.mark_disconnected_by_server();
                PumpAction::Stop
            },
            PumpItem::Idle => PumpAction::Continue,
        }
    }

    /// The data pump left its loop.
    pub fn finish_data_pump(&mut self)
        ensures
            !final(self).running_spec(),
            final(self).cancel_spec() == old(self).cancel_spec(),
            final(self).manager_spec() == old(self).manager_spec(),
            final(self).dirty_spec() == old(self).dirty_spec(),
    {
        self.data_pump_running = false;
    }

    /// Asks the data pump to stop.
    pub fn stop_data_pump(&mut self)
        ensures
            final(self).cancel_spec(),
            final(self).running_spec() == old(self).running_spec(),
            final(self).manager_spec() == old(self).manager_spec(),
            final(self).dirty_spec() == old(self).dirty_spec(),
    {
        self.data_pump_cancel = true;
    }

    /// Whether the data pump runs.
    pub fn is_data_pump_running(&self) -> (r: bool)
        ensures
            r == self.running_spec(),
    {
        self.data_pump_running
    }

    /// Whether user input may go to the backend: only when connected,
    /// and with a backend attached.
    pub fn send_input(&self) -> (r: Result<(), ConnectionError>)
        ensures
            r is Ok <==> (self.manager_spec().state_spec().active() && self.manager_spec().attached_spec()),
            r matches Err(e) ==> e is Disconnected,
    {
        if !self.is_connected() {
            return Err(ConnectionError::Disconnected);
        }
        self.connection_manager.check_attached()
    }

    /// Resizes the terminal to `rows` × `cols`; the answer says whether
    /// the remote side is to be resized too (when connected).
    pub fn resize(&mut self, rows: u16, cols: u16) -> (r: bool)
        ensures
            final(self).size_spec() == (TerminalSize { rows, cols }),
            r == old(self).manager_spec().state_spec().active(),
            final(self).manager_spec() == old(self).manager_spec(),
            final(self).running_spec() == old(self).running_spec(),
    {
        self.size = TerminalSize::new(rows, cols);
        self.is_connected()
    }

    /// Hands out the terminal's event receiver: only the first time.
    pub fn take_event_receiver(&mut self) -> (r: bool)
        ensures
            r == !old(self).receiver_taken_spec(),
            final(self).receiver_taken_spec(),
            final(self).manager_spec() == old(self).manager_spec(),
    {
        let first = !self.event_receiver_taken;
        self.event_receiver_taken = true;
        first
    }

    /// Closes the session: the data pump is asked to stop and the
    /// connection closes.
    pub fn close(&mut self)
        ensures
            final(self).cancel_spec(),
            final(self).manager_spec().cancelled_spec(),
            !final(self).manager_spec().attached_spec(),
            final(self).manager_spec().state_spec() == (ConnectionState::Disconnected {
                reason: DisconnectReason::UserInitiated,
            }),
    {
        self.stop_data_pump();
        self.connection_manager.close();
    }

    /// Marks new data to draw.
    pub fn mark_dirty(&mut self)
        ensures
            final(self).dirty_spec(),
            final(self).last_render_spec() == old(self).last_render_spec(),
            final(self).manager_spec() == old(self).manager_spec(),
            final(self).running_spec() == old(self).running_spec(),
            final(self).cancel_spec() == old(self).cancel_spec(),
            final(self).size_spec() == old(self).size_spec(),
    {
        self.dirty = true;
    }

    /// Whether to redraw at `now_ms`: when there is new data and at least
    /// `MIN_RENDER_INTERVAL_MS` passed since the last redraw; then the
    /// redraw time becomes `now_ms` and the data counts as drawn.
    /// Otherwise nothing changes.
    pub fn check_and_clear_dirty(&mut self, now_ms: u64) -> (r: bool)
        ensures
            r == render_allowed(old(self).dirty_spec(), old(self).last_render_spec(), now_ms),
            r ==> !final(self).dirty_spec() && final(self).last_render_spec() == now_ms,
            !r ==> final(self).dirty_spec() == old(self).dirty_spec() && final(self).last_render_spec() == old(self).last_render_spec(),
            final(self).manager_spec() == old(self).manager_spec(),
            final(self).running_spec() == old(self).running_spec(),
    {
        if !self.dirty {
            return false;
        }
        if now_ms.saturating_sub(self.last_render_ms) < MIN_RENDER_INTERVAL_MS {
            return false;
        }
        self.last_render_ms = now_ms;
        self.dirty = false;
        true
    }

    /// Whether new data waits to be drawn.
    pub fn is_dirty(&self) -> (r: bool)
        ensures
            r == self.dirty_spec(),
    {
        self.dirty
    }
}

/// Two redraws are at least `MIN_RENDER_INTERVAL_MS` apart: after a
/// redraw at `first`, a redraw is allowed at `second` only when `second`
/// is that much later.
pub proof fn law_redraws_spaced(first: u64, second: u64, dirty: bool)
    ensures
        render_allowed(dirty, first, second) ==> second >= first + MIN_RENDER_INTERVAL_MS,
{
}

} // verus!
