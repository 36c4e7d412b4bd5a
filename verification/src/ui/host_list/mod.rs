//! The list of stored hosts.

pub mod host_list_view;

pub use host_list_view::{HostListEvent, HostListView};
