use zeterm::entities::{AuthConfig, HostConfig};
use zeterm::ui::split_pane::{
    Pane, PaneContent, PaneId, SplitDirection, SplitManager, SplitManagerEvent,
};
use zeterm::ui::split_view::{container_size_for, SplitView};
use zeterm::ui::tab_manager::{TabId, TabInfo, TabManager, TabManagerEvent};
use zeterm::ui::tab_view::TabView;
use zeterm::ui::terminal_pane_manager::{TerminalPaneData, TerminalPaneManager};

#[test]
fn test_pane_id_creation() {
    let id1 = PaneId::new();
    let id2 = PaneId::new();
    assert_ne!(id1, id2);
}

#[test]
fn test_split_direction_toggle() {
    assert_eq!(SplitDirection::Horizontal.toggle(), SplitDirection::Vertical);
    assert_eq!(SplitDirection::Vertical.toggle(), SplitDirection::Horizontal);
}

#[test]
fn split_direction_description() {
    assert_eq!(SplitDirection::Horizontal.description(), "水平分屏");
    assert_eq!(SplitDirection::Vertical.description(), "垂直分屏");
}

#[test]
fn test_pane_creation() {
    let pane = Pane::new_terminal("Test Terminal");
    assert!(matches!(pane.content, PaneContent::Terminal { .. }));
}

#[test]
fn ssh_pane_title() {
    let host = HostConfig::new(
        "h".to_string(),
        "10.0.0.2".to_string(),
        "root".to_string(),
        AuthConfig::Agent,
    );
    let pane = Pane::new_ssh(&host);
    match pane.content {
        PaneContent::Terminal { pane_id, title, focused } => {
            assert_eq!(pane_id, pane.id);
            assert_eq!(title, "root@10.0.0.2");
            assert!(!focused);
        }
        _ => panic!("expected a terminal"),
    }
}

#[test]
fn split_manager_split_focus_close() {
    let mut m = SplitManager::new();
    assert!(!m.has_panes());
    let root = Pane::new_terminal("one");
    let a = root.id;
    m.set_root(root);
    assert!(m.focus_pane(a));
    assert_eq!(m.focused_pane(), Some(a));
    let b = m.split_horizontal(a).expect("split");
    assert_eq!(m.focused_pane(), Some(b));
    assert_eq!(m.pane_count(), 2);
    assert_eq!(m.root().unwrap().collect_terminal_panes(), vec![a, b]);
    let c = m.split_vertical(b).expect("split");
    assert_eq!(m.root().unwrap().collect_terminal_panes(), vec![a, b, c]);
    m.focus_next_pane();
    assert_eq!(m.focused_pane(), Some(a));
    m.focus_prev_pane();
    assert_eq!(m.focused_pane(), Some(c));
    assert!(m.split_horizontal(PaneId::new()).is_none());
    assert!(m.close_pane(b));
    assert_eq!(m.root().unwrap().collect_terminal_panes(), vec![a, c]);
    assert_eq!(m.pane_count(), 2);
    let events = m.take_events();
    assert!(events.contains(&SplitManagerEvent::PaneSplit(b)));
    assert!(events.contains(&SplitManagerEvent::PaneClosed(b)));
}

#[test]
fn split_ratio_is_kept_in_range() {
    let mut m = SplitManager::new();
    let root = Pane::new_terminal("one");
    let a = root.id;
    m.set_root(root);
    m.split_horizontal(a);
    let split_id = m.root().unwrap().id;
    assert_eq!(m.get_split_ratio(split_id), Some(500));
    m.adjust_split_ratio(split_id, 250);
    assert_eq!(m.get_split_ratio(split_id), Some(750));
    m.adjust_split_ratio(split_id, 1000);
    assert_eq!(m.get_split_ratio(split_id), Some(900));
    m.set_split_ratio(split_id, 5);
    assert_eq!(m.get_split_ratio(split_id), Some(100));
    assert_eq!(m.get_split_ratio(a), None);
}

#[test]
fn split_view_drag_moves_the_ratio() {
    let mut m = SplitManager::new();
    let root = Pane::new_terminal("one");
    let a = root.id;
    m.set_root(root);
    m.split_horizontal(a);
    let split_id = m.root().unwrap().id;
    let mut view: SplitView<u32> = SplitView::new();
    view.register_terminal_view(a, 7);
    assert_eq!(view.terminal_view(a), Some(&7));
    view.register_terminal_view(a, 8);
    assert_eq!(view.terminal_view(a), Some(&8));
    view.unregister_terminal_view(a);
    assert_eq!(view.terminal_view(a), None);

    assert!(!view.is_dragging());
    view.start_drag(split_id, SplitDirection::Horizontal, 100, 0, 500, container_size_for(SplitDirection::Horizontal));
    assert!(view.is_dragging());
    view.handle_drag_move(180, 50, &mut m);
    assert_eq!(m.get_split_ratio(split_id), Some(600));
    view.handle_drag_move(100, 50, &mut m);
    assert_eq!(m.get_split_ratio(split_id), Some(500));
    view.handle_drag_move(-10000, 0, &mut m);
    assert_eq!(m.get_split_ratio(split_id), Some(100));
    view.end_drag();
    assert!(!view.is_dragging());
    view.handle_drag_move(500, 0, &mut m);
    assert_eq!(m.get_split_ratio(split_id), Some(100));
    assert_eq!(container_size_for(SplitDirection::Vertical), 600);
}

#[test]
fn test_tab_id_creation() {
    let id1 = TabId::new();
    let id2 = TabId::new();
    assert_ne!(id1, id2);
}

#[test]
fn test_tab_info_creation() {
    let tab = TabInfo::new("Test Tab");
    assert_eq!(tab.title, "Test Tab");
    assert!(tab.host_config.is_none());
    assert!(tab.session_id.is_none());
    assert!(!tab.is_active);
    assert!(!tab.is_modified);
}

#[test]
fn test_tab_info_ssh() {
    let host_config = HostConfig::new(
        "Test Host".to_string(),
        "192.168.1.1".to_string(),
        "root".to_string(),
        AuthConfig::Password {
            password_ref: "plain:test".to_string(),
        },
    );

    let tab = TabInfo::new_ssh(host_config.clone());
    assert_eq!(tab.title, "root@192.168.1.1");
    assert!(tab.host_config.is_some());
    assert_eq!(tab.icon, Some("🖥".to_string()));
}

#[test]
fn test_tab_info_local() {
    let tab = TabInfo::new_local("Local Terminal");
    assert_eq!(tab.title, "Local Terminal");
    assert!(tab.host_config.is_none());
    assert_eq!(tab.icon, Some("💻".to_string()));
}

#[test]
fn test_tab_info_with_icon() {
    let tab = TabInfo::new("Test").with_icon("📁");
    assert_eq!(tab.icon, Some("📁".to_string()));
}

#[test]
fn test_tab_info_set_active() {
    let mut tab = TabInfo::new("Test");
    assert!(!tab.is_active);
    tab.set_active(true);
    assert!(tab.is_active);
}

#[test]
fn test_tab_info_set_modified() {
    let mut tab = TabInfo::new("Test");
    assert!(!tab.is_modified);
    tab.set_modified(true);
    assert!(tab.is_modified);
}

#[test]
fn test_tab_manager_creation() {
    let manager = TabManager::new();
    assert_eq!(manager.tab_count(), 0);
    assert!(!manager.has_tabs());
    assert!(manager.active_tab_id().is_none());
}

#[test]
fn test_tab_manager_with_max_tabs() {
    let manager = TabManager::with_max_tabs(5);
    assert_eq!(manager.max_tabs(), 5);
}

#[test]
fn tab_manager_lifecycle() {
    let mut m = TabManager::with_max_tabs(3);
    let a = m.add_tab(TabInfo::new("a"), SplitManager::new()).unwrap();
    let b = m.add_tab(TabInfo::new("b"), SplitManager::new()).unwrap();
    let c = m.add_tab(TabInfo::new("c"), SplitManager::new()).unwrap();
    assert!(m.add_tab(TabInfo::new("d"), SplitManager::new()).is_none());
    assert_eq!(m.active_tab_id(), Some(a));
    assert!(m.switch_to_tab(b));
    assert!(m.switch_to_next_tab());
    assert_eq!(m.active_tab_id(), Some(c));
    assert!(m.switch_to_next_tab());
    assert_eq!(m.active_tab_id(), Some(a));
    assert!(m.switch_to_prev_tab());
    assert_eq!(m.active_tab_id(), Some(c));
    assert!(m.switch_to_tab_at_index(1));
    assert_eq!(m.active_tab_id(), Some(b));
    assert!(m.close_tab(b));
    assert_eq!(m.active_tab_id(), Some(c));
    assert!(!m.close_tab(b));
    assert!(m.move_tab(c, 0));
    assert_eq!(m.get_tab_index(c), Some(0));
    assert!(m.update_tab_title(a, "renamed"));
    assert_eq!(m.get_tab(a).unwrap().title, "renamed");
    assert!(m.set_tab_modified(a, true));
    assert!(m.get_tab(a).unwrap().is_modified);
    assert_eq!(m.tab_count(), 2);
    let events = m.take_events();
    assert!(matches!(events[0], TabManagerEvent::TabAdded(id, _) if id == a));
    assert!(events.iter().any(|e| matches!(e, TabManagerEvent::TabClosed(id) if *id == b)));
    m.close_all_tabs();
    assert!(!m.has_tabs());
    assert_eq!(m.active_tab_id(), None);
}

#[test]
fn closing_the_last_active_tab_activates_the_left_one() {
    let mut m = TabManager::new();
    let a = m.add_tab(TabInfo::new("a"), SplitManager::new()).unwrap();
    let b = m.add_tab(TabInfo::new("b"), SplitManager::new()).unwrap();
    m.switch_to_tab(b);
    m.close_tab(b);
    assert_eq!(m.active_tab_id(), Some(a));
    assert!(m.get_tab(a).unwrap().is_active);
}

#[test]
fn close_other_and_side_tabs() {
    let mut m = TabManager::new();
    let a = m.add_tab(TabInfo::new("a"), SplitManager::new()).unwrap();
    let b = m.add_tab(TabInfo::new("b"), SplitManager::new()).unwrap();
    let c = m.add_tab(TabInfo::new("c"), SplitManager::new()).unwrap();
    let d = m.add_tab(TabInfo::new("d"), SplitManager::new()).unwrap();
    m.close_tabs_to_right(c);
    assert!(!m.contains_tab(d));
    m.close_tabs_to_left(b);
    assert!(!m.contains_tab(a));
    assert_eq!(m.tab_count(), 2);
    m.close_other_tabs(c);
    assert_eq!(m.tab_count(), 1);
    assert!(m.contains_tab(c));
}

#[test]
fn test_tab_view_defaults() {
    let view: TabView<(), ()> = TabView::new();
    assert_eq!(view.tab_bar_height(), 40);
    assert!(view.show_new_tab_button());
    assert!(view.show_close_buttons());
}

#[test]
fn tab_view_registries() {
    let view: TabView<u8, u16> = TabView::new()
        .with_new_tab_button(false)
        .with_close_buttons(false)
        .with_tab_bar_height(32);
    assert!(!view.show_new_tab_button());
    assert!(!view.show_close_buttons());
    assert_eq!(view.tab_bar_height(), 32);
    let mut view = view;
    let t = TabId::new();
    let p = PaneId::new();
    view.register_split_view(t, 1);
    assert_eq!(view.get_split_view(t), Some(&1));
    assert_eq!(view.active_split_view(Some(t)), Some(&1));
    assert_eq!(view.active_split_view(None), None);
    view.register_terminal_view(t, p, 9);
    assert_eq!(view.get_terminal_views(t).map(|v| v.len()), Some(1));
    view.unregister_terminal_view(t, p);
    assert_eq!(view.get_terminal_views(t).map(|v| v.len()), Some(0));
    view.register_terminal_view(t, p, 9);
    view.unregister_all_terminal_views(t);
    assert!(view.get_terminal_views(t).is_none());
    view.unregister_split_view(t);
    assert_eq!(view.get_split_view(t), None);
}

#[test]
fn terminal_pane_manager_by_tab() {
    let mut m: TerminalPaneManager<&str, u32> = TerminalPaneManager::new();
    assert!(!m.is_connected());
    let t1 = TabId::new();
    let t2 = TabId::new();
    let p1 = PaneId::new();
    let p2 = PaneId::new();
    let p3 = PaneId::new();
    m.add_pane(p1, TerminalPaneData { terminal_view: "v1", coordinator: 1, tab_id: t1 });
    m.add_pane(p2, TerminalPaneData { terminal_view: "v2", coordinator: 2, tab_id: t2 });
    m.add_pane(p3, TerminalPaneData { terminal_view: "v3", coordinator: 3, tab_id: t1 });
    assert!(m.is_connected());
    assert_eq!(m.pane_ids_for_tab(t1), vec![p1, p3]);
    assert_eq!(m.get_coordinators_for_tab(t1), vec![1, 3]);
    assert_eq!(m.get_terminal_view(p2), Some(&"v2"));
    assert_eq!(m.get_coordinator(p3), Some(&3));
    let removed = m.cleanup_tab(t1);
    assert_eq!(removed.iter().map(|d| d.coordinator).collect::<Vec<_>>(), vec![1, 3]);
    assert_eq!(m.get_terminal_view(p1), None);
    assert!(m.pane_ids_for_tab(t1).is_empty());
    let gone = m.remove_pane(p2).unwrap();
    assert_eq!(gone.terminal_view, "v2");
    assert!(m.remove_pane(p2).is_none());
    assert!(!m.is_connected());
}
