//! The terminal's configuration, its events, and the mouse reporting modes
//! that the remote application asks for.

pub mod terminal_state;

pub use terminal_state::{TerminalConfig, TerminalEvent};
