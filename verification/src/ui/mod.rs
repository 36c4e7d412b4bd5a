//! Presentation-layer state: tabs, split panes, dialogs, SFTP views,
//! status bar and themes.

pub mod app_theme;
pub mod components;
pub mod connection_manager;
pub mod dialogs;
pub mod host_list;
pub mod main_window;
pub mod sftp;
pub mod split_pane;
pub mod split_view;
pub mod status_bar;
pub mod tab_manager;
pub mod tab_view;
pub mod terminal_pane_manager;
