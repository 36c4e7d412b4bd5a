//! Zeterm: the verified core of an SSH terminal client.
//!
//! The library holds the state machines and rules of the client (tabs,
//! split panes, the SFTP path bar and transfer queue, reconnection, themes,
//! dialogs); the binary around it does the rendering and the I/O.

pub mod app;
pub mod assoc;
pub mod entities;
pub mod ids;
pub mod logging;
pub mod seqs;
pub mod text;
pub mod ui;
