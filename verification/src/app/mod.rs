//! Application layer: sessions, connection state, reconnection, the
//! terminal's configuration, and the runtime's settings.

pub mod runtime;
pub mod session;
pub mod terminal;
