//! Sessions: the connection's state, the data pump's decisions, and
//! reconnection.

pub mod connection_manager;
pub mod reconnect_controller;
pub mod session_coordinator;

pub use connection_manager::ConnectionManager;
pub use reconnect_controller::{ReconnectController, ReconnectControllerConfig};
pub use session_coordinator::SessionCoordinator;
