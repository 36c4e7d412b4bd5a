//! Dialogs: host editing, host key confirmation, closing and deleting
//! confirmations, error notifications.

pub mod host_connection_dialog;
pub mod close_confirm_dialog;
pub mod delete_confirm_dialog;
pub mod error_notification;
pub mod host_key_channel;
pub mod host_key_dialog;
