use zeterm::entities::{AuthConfig, ConnectionError, ConnectionState, DisconnectReason, HostConfig};
use zeterm::text::{after_last_slash, eq_ignore_ascii_case, parse_u16, str_contains, to_decimal, trim};
use zeterm::ui::components::text_input::{TextInput, TextInputEvent};
use zeterm::ui::connection_manager::{
    begin_connect, connect_error_message, convert_to_ssh_config, secret_ref, status_for_state,
    sync_status_bar_from_state, AuthMethod,
};
use zeterm::ui::dialogs::delete_confirm_dialog::{DeleteConfirmEvent, DeleteTarget};
use zeterm::ui::dialogs::host_connection_dialog::DialogMode;
use zeterm::ui::host_list::host_list_view::{group_name, host_subtitle, hosts_in_group};
use zeterm::ui::host_list::{HostListEvent, HostListView};
use zeterm::ui::split_pane::SplitManager;
use zeterm::ui::status_bar::{ConnectionStatus, StatusBar, StatusInfo};
use zeterm::ui::tab_manager::{TabInfo, TabManager};

#[test]
fn test_connection_status_icon() {
    assert_eq!(ConnectionStatus::Disconnected.icon(), "○");
    assert_eq!(ConnectionStatus::Connecting.icon(), "◐");
    assert_eq!(ConnectionStatus::Connected.icon(), "●");
    assert_eq!(ConnectionStatus::Error.icon(), "✕");
}

#[test]
fn connection_status_text_and_color() {
    assert_eq!(ConnectionStatus::Connecting.text(), "Connecting...");
    assert_eq!(ConnectionStatus::Error.color_name(), "red");
    assert_eq!(ConnectionStatus::default(), ConnectionStatus::Disconnected);
}

#[test]
fn test_status_info_user_host_display() {
    let info = StatusInfo::new().with_user_host("root".to_string(), "server.example.com".to_string());
    assert_eq!(info.user_host_display(), Some("root@server.example.com".to_string()));

    let info2 = StatusInfo::new();
    assert_eq!(info2.user_host_display(), None);
}

#[test]
fn status_info_user_host_partial() {
    let mut info = StatusInfo::new();
    info.hostname = Some("h".to_string());
    assert_eq!(info.user_host_display(), Some("h".to_string()));
    info.hostname = None;
    info.username = Some("u".to_string());
    assert_eq!(info.user_host_display(), Some("u".to_string()));
}

#[test]
fn test_status_info_size_display() {
    let info = StatusInfo::new().with_size(120, 40);
    assert_eq!(info.size_display(), "120×40");
}

#[test]
fn test_status_info_rtt_display() {
    let info = StatusInfo::new().with_rtt(50);
    assert_eq!(info.rtt_display(), Some("50ms".to_string()));

    let info2 = StatusInfo::new().with_rtt(1500);
    assert_eq!(info2.rtt_display(), Some("1.5s".to_string()));

    let info3 = StatusInfo::new();
    assert_eq!(info3.rtt_display(), None);
}

#[test]
fn rtt_display_matches_one_decimal_float_formatting() {
    let mut values: Vec<u32> = (0..20_000).collect();
    values.extend((20_000..2_000_000).step_by(37));
    values.extend([u32::MAX, u32::MAX - 1, 4_294_967_250, 1_000_050, 2_500, 3_450, 1_050]);
    for ms in values {
        let expected = if ms < 1000 {
            format!("{}ms", ms)
        } else {
            format!("{:.1}s", ms as f64 / 1000.0)
        };
        let shown = StatusInfo::new().with_rtt(ms).rtt_display().unwrap();
        assert_eq!(shown, expected, "rtt {}", ms);
    }
}

#[test]
fn test_status_info_builder() {
    let info = StatusInfo::new()
        .with_connection_status(ConnectionStatus::Connected)
        .with_user_host("admin".to_string(), "192.168.1.1".to_string())
        .with_size(100, 30)
        .with_encoding("GBK".to_string())
        .with_rtt(25);

    assert_eq!(info.connection_status, ConnectionStatus::Connected);
    assert_eq!(info.username, Some("admin".to_string()));
    assert_eq!(info.hostname, Some("192.168.1.1".to_string()));
    assert_eq!(info.cols, 100);
    assert_eq!(info.rows, 30);
    assert_eq!(info.encoding, "GBK");
    assert_eq!(info.rtt_ms, Some(25));
}

#[test]
fn status_bar_updates() {
    let mut bar = StatusBar::new();
    assert_eq!(bar.status_info().cols, 80);
    assert_eq!(bar.status_info().encoding, "UTF-8");
    bar.set_size(100, 50);
    bar.set_rtt(Some(9));
    bar.set_user_host(Some("a".to_string()), None);
    assert_eq!(bar.status_info().rows, 50);
    assert_eq!(bar.status_info().rtt_ms, Some(9));
    assert!(sync_status_bar_from_state(ConnectionState::Connecting, &mut bar));
    assert_eq!(bar.status_info().connection_status, ConnectionStatus::Connecting);
    assert!(!sync_status_bar_from_state(ConnectionState::Authenticating, &mut bar));
    assert_eq!(bar.status_info().cols, 100);
}

#[test]
fn status_of_connection_states() {
    assert_eq!(status_for_state(ConnectionState::Idle), ConnectionStatus::Disconnected);
    assert_eq!(
        status_for_state(ConnectionState::Disconnected { reason: DisconnectReason::UserInitiated }),
        ConnectionStatus::Disconnected
    );
    assert_eq!(
        status_for_state(ConnectionState::Connected { connected_at_ms: 1 }),
        ConnectionStatus::Connected
    );
    assert_eq!(
        status_for_state(ConnectionState::Reconnecting { attempt: 2 }),
        ConnectionStatus::Connecting
    );
    assert_eq!(status_for_state(ConnectionState::Disconnecting), ConnectionStatus::Connecting);
}

fn host(name: &str, group: Option<&str>, id: Option<i64>) -> HostConfig {
    let mut h = HostConfig::new(
        name.to_string(),
        format!("{}.example.com", name),
        "root".to_string(),
        AuthConfig::Password { password_ref: "keychain:x".to_string() },
    );
    h.group = group.map(|g| g.to_string());
    h.id = id;
    h
}

#[test]
fn ssh_config_from_a_host() {
    let h = host("a", None, Some(1));
    assert_eq!(secret_ref(&h.auth_config), Some("keychain:x"));
    let c = convert_to_ssh_config(&h, Some(Ok(Some("pw".to_string())))).unwrap();
    assert_eq!(c.host, "a.example.com");
    assert_eq!(c.port, 22);
    assert_eq!(c.username, "root");
    assert_eq!((c.term_cols, c.term_rows), (80, 24));
    assert!(matches!(c.auth_method, AuthMethod::Password(ref p) if p == "pw"));
    match convert_to_ssh_config(&h, Some(Ok(None))) {
        Err(ConnectionError::Authentication(m)) => assert_eq!(m, "无法获取密码，请检查密码配置"),
        other => panic!("unexpected {:?}", other.map(|c| c.host)),
    }
    match convert_to_ssh_config(&h, Some(Err("locked".to_string()))) {
        Err(ConnectionError::Configuration(m)) => assert_eq!(m, "密码解析失败: locked"),
        other => panic!("unexpected {:?}", other.map(|c| c.host)),
    }
    let mut k = h.clone();
    k.auth_config = AuthConfig::PublicKey { key_path: "/k".to_string(), passphrase_ref: None };
    assert_eq!(secret_ref(&k.auth_config), None);
    let c = convert_to_ssh_config(&k, None).unwrap();
    assert!(matches!(c.auth_method, AuthMethod::PublicKey { ref key_path, passphrase: None } if key_path == "/k"));
    k.auth_config = AuthConfig::PublicKey {
        key_path: "/k".to_string(),
        passphrase_ref: Some("keychain:p".to_string()),
    };
    match convert_to_ssh_config(&k, Some(Err("no".to_string()))) {
        Err(ConnectionError::Configuration(m)) => assert_eq!(m, "私钥密码解析失败: no"),
        other => panic!("unexpected {:?}", other.map(|c| c.host)),
    }
    k.auth_config = AuthConfig::Agent;
    assert!(matches!(convert_to_ssh_config(&k, None).unwrap().auth_method, AuthMethod::Agent));
    assert_eq!(connect_error_message("web", "timeout"), "SSH 连接失败: web - timeout");
}

#[test]
fn begin_connect_activates_the_tab() {
    let mut tabs = TabManager::new();
    let a = tabs.add_tab(TabInfo::new("a"), SplitManager::new()).unwrap();
    let b = tabs.add_tab(TabInfo::new("b"), SplitManager::new()).unwrap();
    let mut bar = StatusBar::new();
    let h = host("db", None, Some(4));
    assert!(begin_connect(&h, b, &mut tabs, &mut bar));
    assert_eq!(tabs.active_tab_id(), Some(b));
    assert_eq!(bar.status_info().connection_status, ConnectionStatus::Connecting);
    assert_eq!(bar.status_info().user_host_display(), Some("root@db.example.com".to_string()));
    assert!(tabs.contains_tab(a));
}

#[test]
fn host_list_groups_hosts_by_name() {
    let mut list = HostListView::new();
    list.set_hosts(vec![
        host("w1", Some("web"), Some(1)),
        host("d1", Some("db"), Some(2)),
        host("x", None, Some(3)),
        host("w2", Some("web"), Some(4)),
    ]);
    assert_eq!(list.host_count(), 4);
    let groups = list.groups();
    let names: Vec<&str> = groups.iter().map(|g| g.0.as_str()).collect();
    assert_eq!(names, vec!["db", "web", "默认分组"]);
    let web: Vec<&str> = groups[1].1.iter().map(|h| h.name.as_str()).collect();
    assert_eq!(web, vec!["w1", "w2"]);
    assert_eq!(group_name(&host("x", None, None)), "默认分组");
    assert_eq!(hosts_in_group(list.hosts(), "db").len(), 1);
    assert_eq!(host_subtitle(&host("w1", None, None)), "root@w1.example.com:22");
}

#[test]
fn host_list_double_click_connects() {
    let mut list = HostListView::new();
    let a = host("a", None, Some(1));
    let b = host("b", None, Some(2));
    list.set_hosts(vec![a.clone(), b.clone()]);
    assert!(list.handle_host_click(&a, 1000).is_none());
    assert_eq!(list.selected_host().map(|h| h.name), Some("a".to_string()));
    match list.handle_host_click(&a, 1400) {
        Some(HostListEvent::ConnectRequested(h)) => assert_eq!(h.name, "a"),
        other => panic!("expected a connection request, got {:?}", other),
    }
    assert!(list.handle_host_click(&a, 1500).is_none());
    assert!(list.handle_host_click(&a, 2000).is_none());
    assert!(list.handle_host_click(&b, 2100).is_none());
    assert_eq!(list.selected_host().map(|h| h.name), Some("b".to_string()));
    assert!(list.handle_host_click(&host("n", None, None), 2150).is_none());
    assert_eq!(list.selected_host().map(|h| h.name), Some("b".to_string()));
}

#[test]
fn host_list_groups_fold() {
    let mut list = HostListView::new();
    assert!(list.is_group_expanded("web"));
    list.toggle_group("web");
    assert!(!list.is_group_expanded("web"));
    list.toggle_group("db");
    list.toggle_group("web");
    assert!(list.is_group_expanded("web"));
    assert!(!list.is_group_expanded("db"));
}

#[test]
fn host_list_store_updates() {
    let mut list = HostListView::new();
    list.set_hosts(vec![host("a", None, Some(1)), host("b", None, Some(2))]);
    list.host_created(host("c", None, None), 9);
    assert_eq!(list.hosts()[2].id, Some(9));
    let mut changed = host("b2", None, Some(2));
    changed.port = 2022;
    list.host_updated(changed);
    assert_eq!(list.hosts()[1].name, "b2");
    list.host_updated(host("zz", None, Some(77)));
    assert_eq!(list.host_count(), 3);
    list.host_deleted(1);
    let names: Vec<&str> = list.hosts().iter().map(|h| h.name.as_str()).collect();
    assert_eq!(names, vec!["b2", "c"]);
}

#[test]
fn host_list_dialogs_and_deletion() {
    let mut list = HostListView::new();
    let a = host("a", None, Some(1));
    list.handle_new_host();
    assert_eq!(list.connection_dialog.as_ref().map(|d| d.mode), Some(DialogMode::Create));
    assert!(list.close_dialog());
    assert!(list.connection_dialog.is_none());
    list.handle_edit_host(&a, None);
    assert!(!list.close_dialog());
    list.show_context_menu(&a);
    assert_eq!(list.context_menu_host().map(|h| h.name.as_str()), Some("a"));
    list.hide_context_menu();
    assert!(list.context_menu_host().is_none());

    list.handle_delete_host(&host("n", None, None));
    assert!(list.delete_dialog.is_none());
    list.handle_delete_host(&a);
    assert_eq!(list.pending_delete, Some((1, "a".to_string())));
    let ev = list.on_delete_dialog_event(&DeleteConfirmEvent::Confirmed(DeleteTarget::host(1, "a".to_string())));
    assert!(matches!(ev, Some(HostListEvent::HostDeleted(1))));
    assert!(list.delete_dialog.is_none());
    assert!(list.pending_delete.is_none());
    list.handle_delete_host(&a);
    assert!(list.on_delete_dialog_event(&DeleteConfirmEvent::Cancelled).is_none());
}

#[test]
fn text_input_editing() {
    let mut input = TextInput::new().with_placeholder("type".to_string());
    assert_eq!(input.display_text(), "type");
    input.insert_char("h");
    input.insert_char("é");
    input.move_left();
    input.insert_char("x");
    assert_eq!(input.value(), "hxé");
    input.delete_forward();
    assert_eq!(input.value(), "hx");
    input.move_to_start();
    input.delete_backward();
    assert_eq!(input.value(), "hx");
    input.move_to_end();
    input.delete_backward();
    assert_eq!(input.value(), "h");
    input.handle_submit();
    let events = input.take_events();
    assert!(matches!(events.last(), Some(TextInputEvent::Submitted(v)) if v == "h"));
    let masked = TextInput::new().with_password(true).with_value("abc".to_string());
    assert_eq!(masked.display_text(), "•••");
    let mut ro = TextInput::new().with_readonly(true);
    ro.insert_char("a");
    assert_eq!(ro.value(), "");
}

#[test]
fn text_helpers() {
    assert_eq!(to_decimal(0), "0");
    assert_eq!(to_decimal(18_446_744_073_709_551_615), "18446744073709551615");
    assert_eq!(trim("  a b \n"), "a b");
    assert_eq!(parse_u16("65535"), Some(65535));
    assert_eq!(parse_u16("65536"), None);
    assert_eq!(parse_u16(""), None);
    assert_eq!(parse_u16("1a"), None);
    assert!(str_contains("hello world", "o w"));
    assert!(!str_contains("hello", "hello!"));
    assert!(eq_ignore_ascii_case("DaRk", "dark"));
    assert_eq!(after_last_slash("/a/b/c.txt"), "c.txt");
    assert_eq!(after_last_slash("c.txt"), "c.txt");
}
