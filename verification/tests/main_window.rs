use zeterm::entities::{AuthConfig, HostConfig};
use zeterm::ui::app_theme::{BuiltinTheme, ThemeMode};
use zeterm::ui::host_list::HostListEvent;
use zeterm::ui::main_window::MainWindow;
use zeterm::ui::split_pane::{PaneId, SplitDirection};
use zeterm::ui::status_bar::ConnectionStatus;
use zeterm::ui::tab_manager::{TabId, TabManagerEvent};

type Window = MainWindow<u32, u32>;

fn host() -> HostConfig {
    HostConfig::new(
        "srv".to_string(),
        "10.0.0.1".to_string(),
        "alice".to_string(),
        AuthConfig::agent(),
    )
}

#[test]
fn window_starts_empty() {
    let w: Window = MainWindow::new();
    assert_eq!(w.tab_count(), 0);
    assert!(!w.has_tabs());
    assert_eq!(w.active_tab_id(), None);
    assert_eq!(w.active_pane_id(), None);
    assert!(w.is_sidebar_visible());
    assert!(w.is_tab_bar_visible());
    assert!(!w.is_connected());
    assert_eq!(w.current_theme(), BuiltinTheme::Dark);
    assert_eq!(w.status_bar.status_info().connection_status, ConnectionStatus::Disconnected);
}

#[test]
fn local_tab_gets_layout_and_split_view() {
    let mut w: Window = MainWindow::new();
    let id = w.create_local_tab("shell").unwrap();
    assert_eq!(w.tab_count(), 1);
    assert_eq!(w.tab_manager.get_tab(id).unwrap().title, "shell");
    assert!(w.tab_manager.get_tab(id).unwrap().host_config.is_none());
    assert_eq!(w.tab_manager.get_split_manager(id).unwrap().pane_count(), 0);
    assert!(w.tab_view.get_split_view(id).is_some());
}

#[test]
fn ssh_tab_is_titled_user_at_host() {
    let mut w: Window = MainWindow::new();
    let id = w.create_ssh_tab(&host()).unwrap();
    let info = w.tab_manager.get_tab(id).unwrap();
    assert_eq!(info.title, "alice@10.0.0.1");
    assert_eq!(info.host_config.as_ref().unwrap().host, "10.0.0.1");
}

#[test]
fn first_pane_becomes_root_and_focused() {
    let mut w: Window = MainWindow::new();
    let id = w.create_local_tab("shell").unwrap();
    let pane = w.add_terminal_pane(id, "Terminal", 7, 70).unwrap();
    let layout = w.tab_manager.get_split_manager(id).unwrap();
    assert_eq!(layout.pane_count(), 1);
    assert_eq!(layout.focused_pane(), Some(pane));
    assert_eq!(w.active_pane_id(), Some(pane));
    assert_eq!(w.tab_view.get_split_view(id).unwrap().terminal_view(pane), Some(&70));
    assert_eq!(w.terminal_panes.pane_ids_for_tab(id), vec![pane]);
}

#[test]
fn pane_lookups_read_the_registry() {
    let mut w: Window = MainWindow::new();
    let id = w.create_local_tab("shell").unwrap();
    let pane = w.add_terminal_pane(id, "Terminal", 7, 70).unwrap();
    // The panes the window adds are kept apart from the registry that the
    // lookups read.
    assert_eq!(w.get_terminal_view(pane), None);
    assert_eq!(w.get_coordinator(pane), None);
    assert_eq!(w.active_coordinator(), None);
}

#[test]
fn adding_to_unknown_tab_is_refused() {
    let mut w: Window = MainWindow::new();
    assert_eq!(w.add_terminal_pane(TabId::new(), "Terminal", 1, 1), None);
    assert_eq!(w.terminal_panes.pane_ids_for_tab(TabId::new()).len(), 0);
}

#[test]
fn split_adds_a_second_pane() {
    let mut w: Window = MainWindow::new();
    let id = w.create_local_tab("shell").unwrap();
    w.switch_to_tab_at_index(0);
    let first = w.add_terminal_pane(id, "Terminal", 1, 10).unwrap();
    let second = w.split_with_direction(SplitDirection::Vertical, 2, 20).unwrap();
    assert_ne!(first, second);
    let layout = w.tab_manager.get_split_manager(id).unwrap();
    assert_eq!(layout.pane_count(), 2);
    assert_eq!(w.tab_view.get_split_view(id).unwrap().terminal_view(second), Some(&20));
    assert_eq!(w.terminal_panes.pane_ids_for_tab(id).len(), 2);
}

#[test]
fn split_without_active_tab_does_nothing() {
    let mut w: Window = MainWindow::new();
    assert_eq!(w.split_horizontal(1, 1), None);
    assert_eq!(w.split_vertical(1, 1), None);
    assert_eq!(w.tab_count(), 0);
}

#[test]
fn focus_moves_between_panes() {
    let mut w: Window = MainWindow::new();
    let id = w.create_local_tab("shell").unwrap();
    w.switch_to_tab_at_index(0);
    let first = w.add_terminal_pane(id, "Terminal", 1, 10).unwrap();
    let second = w.split_horizontal(2, 20).unwrap();
    assert_eq!(w.active_pane_id(), Some(second));
    w.focus_next_pane();
    assert_eq!(w.active_pane_id(), Some(first));
    w.focus_next_pane();
    assert_eq!(w.active_pane_id(), Some(second));
    w.focus_prev_pane();
    assert_eq!(w.active_pane_id(), Some(first));
}

#[test]
fn closing_last_pane_of_active_tab_clears_status() {
    let mut w: Window = MainWindow::new();
    let id = w.create_local_tab("shell").unwrap();
    w.switch_to_tab_at_index(0);
    let pane = w.add_terminal_pane(id, "Terminal", 1, 10).unwrap();
    w.update_connection_status(ConnectionStatus::Connected);
    w.update_user_host(Some("bob".to_string()), Some("h".to_string()));
    w.close_terminal_pane(pane);
    assert_eq!(w.terminal_panes.pane_ids_for_tab(id).len(), 0);
    assert_eq!(w.tab_view.get_split_view(id).unwrap().terminal_view(pane), None);
    let info = w.status_bar.status_info();
    assert_eq!(info.connection_status, ConnectionStatus::Disconnected);
    assert_eq!(info.username, None);
    assert_eq!(info.hostname, None);
}

#[test]
fn closing_unknown_pane_keeps_status_of_busy_tab() {
    let mut w: Window = MainWindow::new();
    let id = w.create_local_tab("shell").unwrap();
    w.switch_to_tab_at_index(0);
    w.add_terminal_pane(id, "Terminal", 1, 10).unwrap();
    w.update_connection_status(ConnectionStatus::Connected);
    w.close_terminal_pane(PaneId::new());
    assert_eq!(w.status_bar.status_info().connection_status, ConnectionStatus::Connected);
    assert_eq!(w.terminal_panes.pane_ids_for_tab(id).len(), 1);
}

#[test]
fn close_focused_pane_closes_it() {
    let mut w: Window = MainWindow::new();
    let id = w.create_local_tab("shell").unwrap();
    w.switch_to_tab_at_index(0);
    w.add_terminal_pane(id, "Terminal", 1, 10).unwrap();
    w.split_horizontal(2, 20).unwrap();
    w.close_focused_pane();
    assert_eq!(w.terminal_panes.pane_ids_for_tab(id).len(), 1);
}

#[test]
fn cleanup_tab_with_empty_registry() {
    let mut w: Window = MainWindow::new();
    let id = w.create_local_tab("shell").unwrap();
    w.add_terminal_pane(id, "Terminal", 1, 10).unwrap();
    assert!(w.cleanup_tab(id).is_empty());
    assert!(w.tab_view.get_split_view(id).is_none());
}

#[test]
fn tab_closed_event_cleans_up() {
    let mut w: Window = MainWindow::new();
    let id = w.create_local_tab("shell").unwrap();
    assert!(w.close_tab(id));
    let events = w.tab_manager.take_events();
    let closed = events
        .iter()
        .find(|e| matches!(e, TabManagerEvent::TabClosed(_)))
        .unwrap();
    assert!(w.on_tab_manager_event(closed).is_empty());
    assert!(w.tab_view.get_split_view(id).is_none());
    assert_eq!(w.tab_count(), 0);
}

#[test]
fn tab_switching_helpers() {
    let mut w: Window = MainWindow::new();
    let a = w.create_local_tab("a").unwrap();
    let b = w.create_local_tab("b").unwrap();
    assert!(w.switch_to_tab_at_index(1));
    assert_eq!(w.active_tab_id(), Some(b));
    assert!(w.switch_to_next_tab());
    assert_eq!(w.active_tab_id(), Some(a));
    assert!(w.switch_to_prev_tab());
    assert_eq!(w.active_tab_id(), Some(b));
    assert!(!w.switch_to_tab_at_index(5));
    assert!(w.close_active_tab());
    assert_eq!(w.tab_count(), 1);
    assert_eq!(w.active_tab_id(), Some(a));
}

#[test]
fn switching_to_ssh_tab_shows_host() {
    let mut w: Window = MainWindow::new();
    let local = w.create_local_tab("shell").unwrap();
    let ssh = w.create_ssh_tab(&host()).unwrap();
    w.on_tab_switched(ssh);
    let info = w.status_bar.status_info();
    assert_eq!(info.connection_status, ConnectionStatus::Connected);
    assert_eq!(info.username.as_deref(), Some("alice"));
    assert_eq!(info.hostname.as_deref(), Some("10.0.0.1"));
    w.on_tab_switched(local);
    let info = w.status_bar.status_info();
    assert_eq!(info.connection_status, ConnectionStatus::Disconnected);
    assert_eq!(info.username, None);
}

#[test]
fn status_updates_reach_the_bar() {
    let mut w: Window = MainWindow::new();
    w.update_terminal_size(120, 40);
    w.update_rtt(Some(15));
    let info = w.status_bar.status_info();
    assert_eq!(info.cols, 120);
    assert_eq!(info.rows, 40);
    assert_eq!(info.rtt_ms, Some(15));
}

#[test]
fn theme_controls() {
    let mut w: Window = MainWindow::new();
    assert!(w.is_dark_mode());
    w.toggle_theme();
    assert!(!w.is_dark_mode());
    w.set_theme(BuiltinTheme::Dark);
    assert_eq!(w.current_theme(), BuiltinTheme::Dark);
    // The mode is still light: asking for it again keeps the dark theme.
    w.set_theme_mode(ThemeMode::Light, true);
    assert!(w.is_dark_mode());
    // Following a light system replaces the dark theme.
    w.set_theme_mode(ThemeMode::System, false);
    assert!(!w.is_dark_mode());
    assert!(!w.available_themes().is_empty());
}

#[test]
fn bar_toggles() {
    let mut w: Window = MainWindow::new();
    w.toggle_sidebar();
    assert!(!w.is_sidebar_visible());
    w.set_sidebar_visible(true);
    assert!(w.is_sidebar_visible());
    w.toggle_tab_bar();
    assert!(!w.is_tab_bar_visible());
    w.set_tab_bar_visible(true);
    assert!(w.is_tab_bar_visible());
}

#[test]
fn pending_errors_show_the_last_one() {
    let mut w: Window = MainWindow::new();
    w.connection_failed("h1", "refused");
    w.connection_failed("h2", "timeout");
    assert_eq!(w.pending_errors, vec!["h1: refused".to_string(), "h2: timeout".to_string()]);
    w.show_pending_errors();
    assert!(w.pending_errors.is_empty());
    let n = w.error_notification.as_ref().unwrap();
    assert_eq!(n.title, "连接失败");
    assert_eq!(n.message, "h2: timeout");
    assert!(n.show_retry);
    assert!(!n.auto_dismiss);
    w.close_error_notification();
    assert!(w.error_notification.is_none());
}

#[test]
fn no_pending_errors_shows_nothing() {
    let mut w: Window = MainWindow::new();
    w.show_pending_errors();
    assert!(w.error_notification.is_none());
}

#[test]
fn host_list_events() {
    let mut w: Window = MainWindow::new();
    let back = w.on_host_list_event(HostListEvent::ConnectRequested(host()), None).unwrap();
    assert_eq!(back.name, "srv");
    assert_eq!(back.host, "10.0.0.1");
    assert!(w.connection_dialog.is_none());
    assert!(w.on_host_list_event(HostListEvent::NewHostRequested, None).is_none());
    assert!(w.close_connection_dialog());
    assert!(w.on_host_list_event(HostListEvent::EditHostRequested(host()), None).is_none());
    assert_eq!(w.connection_dialog.as_ref().unwrap().original_config.as_ref().unwrap().username, "alice");
    assert!(!w.close_connection_dialog());
    assert!(!w.close_connection_dialog());
}

#[test]
fn new_tab_request_opens_active_local_tab() {
    let mut w: Window = MainWindow::new();
    let id = w.on_new_tab_requested().unwrap();
    assert_eq!(w.active_tab_id(), Some(id));
    assert_eq!(w.tab_manager.get_tab(id).unwrap().title, "新终端");
}

#[test]
fn connect_to_host_opens_tab_and_pane() {
    let mut w: Window = MainWindow::new();
    let (tab, pane) = w.connect_to_host(host(), 3, 30).unwrap();
    assert_eq!(w.active_tab_id(), Some(tab));
    assert_eq!(w.active_pane_id(), Some(pane));
    assert_eq!(w.tab_manager.get_tab(tab).unwrap().title, "alice@10.0.0.1");
    let info = w.status_bar.status_info();
    assert_eq!(info.connection_status, ConnectionStatus::Connecting);
    assert_eq!(info.username.as_deref(), Some("alice"));
    assert_eq!(info.hostname.as_deref(), Some("10.0.0.1"));
}
