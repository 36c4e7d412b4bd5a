use zeterm::ui::dialogs::close_confirm_dialog::{
    CloseConfirmDialog, CloseConfirmEvent, CloseConfirmType,
};
use zeterm::ui::dialogs::delete_confirm_dialog::{
    DeleteConfirmDialog, DeleteConfirmEvent, DeleteTarget,
};
use zeterm::ui::dialogs::error_notification::{ErrorNotification, ErrorNotificationEvent};

#[test]
fn test_close_confirm_type_title() {
    assert_eq!(CloseConfirmType::CloseTab.title(), "Close Tab?");
    assert_eq!(CloseConfirmType::CloseTabs.title(), "Close Tabs?");
    assert_eq!(CloseConfirmType::CloseApplication.title(), "Quit Application?");
    assert_eq!(CloseConfirmType::CloseOtherTabs.title(), "Close Other Tabs?");
}

#[test]
fn test_close_confirm_type_description() {
    let desc = CloseConfirmType::CloseTab.description(1);
    assert!(desc.contains("active SSH connection"));

    let desc2 = CloseConfirmType::CloseTabs.description(3);
    assert!(desc2.contains("3 tabs"));

    let desc3 = CloseConfirmType::CloseApplication.description(1);
    assert!(desc3.contains("is 1 active"));

    let desc4 = CloseConfirmType::CloseApplication.description(2);
    assert!(desc4.contains("are 2 active"));
}

#[test]
fn close_confirm_descriptions_exact() {
    assert_eq!(
        CloseConfirmType::CloseApplication.description(1),
        "There is 1 active SSH connection. Quitting will disconnect all sessions."
    );
    assert_eq!(
        CloseConfirmType::CloseApplication.description(2),
        "There are 2 active SSH connections. Quitting will disconnect all sessions."
    );
    assert_eq!(
        CloseConfirmType::CloseOtherTabs.description(1),
        "1 other tab has active SSH connections. Closing them will disconnect these sessions."
    );
    assert_eq!(
        CloseConfirmType::CloseOtherTabs.description(4),
        "4 other tabs have active SSH connections. Closing them will disconnect these sessions."
    );
    assert_eq!(
        CloseConfirmType::CloseTabs.description(12),
        "12 tabs have active SSH connections. Closing them will disconnect all sessions."
    );
}

#[test]
fn test_close_confirm_type_confirm_button_text() {
    assert_eq!(CloseConfirmType::CloseTab.confirm_button_text(), "Close Tab");
    assert_eq!(CloseConfirmType::CloseTabs.confirm_button_text(), "Close All");
    assert_eq!(CloseConfirmType::CloseApplication.confirm_button_text(), "Quit");
    assert_eq!(CloseConfirmType::CloseOtherTabs.confirm_button_text(), "Close Others");
}

#[test]
fn test_close_confirm_type_icon() {
    assert_eq!(CloseConfirmType::CloseTab.icon(), "⚠️");
    assert_eq!(CloseConfirmType::CloseApplication.icon(), "🚪");
}

#[test]
fn test_close_confirm_event_debug() {
    let confirmed = CloseConfirmEvent::Confirmed;
    let cancelled = CloseConfirmEvent::Cancelled;

    assert!(format!("{:?}", confirmed).contains("Confirmed"));
    assert!(format!("{:?}", cancelled).contains("Cancelled"));
}

#[test]
fn close_confirm_dialog_keys_and_heading() {
    let mut dialog = CloseConfirmDialog::close_application(vec![
        "root@a".to_string(),
        "root@b".to_string(),
    ]);
    assert_eq!(dialog.connection_count(), 2);
    assert_eq!(dialog.connections_heading(), "2 Active Connections");
    assert!(!dialog.show_details);
    dialog.toggle_details();
    assert!(dialog.show_details);
    dialog.handle_key_down("x");
    assert!(dialog.take_events().is_empty());
    dialog.handle_key_down("enter");
    dialog.handle_key_down("escape");
    dialog.confirm();
    assert_eq!(
        dialog.take_events(),
        vec![
            CloseConfirmEvent::Cancelled,
            CloseConfirmEvent::Cancelled,
            CloseConfirmEvent::Confirmed
        ]
    );
    let single = CloseConfirmDialog::close_tab("root@a".to_string());
    assert_eq!(single.connections_heading(), "1 Active Connection");
    assert_eq!(single.close_type, CloseConfirmType::CloseTab);
}

#[test]
fn test_delete_target_host() {
    let target = DeleteTarget::host(1, "test-host".to_string());
    assert_eq!(target.host_id(), Some(1));
    assert_eq!(target.host_name(), Some("test-host"));
    assert_eq!(target.title(), "删除主机");
    assert!(target.description().contains("test-host"));
}

#[test]
fn test_delete_target_hosts() {
    let target = DeleteTarget::hosts(vec![1, 2, 3]);
    assert_eq!(target.host_id(), None);
    assert_eq!(target.host_name(), None);
    assert_eq!(target.title(), "删除多个主机");
    assert!(target.description().contains("3"));
}

#[test]
fn test_delete_confirm_event_debug() {
    let event = DeleteConfirmEvent::Cancelled;
    assert!(format!("{:?}", event).contains("Cancelled"));

    let event = DeleteConfirmEvent::Confirmed(DeleteTarget::host(1, "test".to_string()));
    assert!(format!("{:?}", event).contains("Confirmed"));
}

#[test]
fn delete_confirm_descriptions_exact() {
    assert_eq!(
        DeleteTarget::host(7, "web".to_string()).description(),
        "你确定要删除主机 \"web\" 吗？"
    );
    assert_eq!(
        DeleteTarget::hosts(vec![4, 5]).description(),
        "你确定要删除选中的 2 个主机吗？"
    );
}

#[test]
fn delete_confirm_dialog_keys() {
    let mut dialog = DeleteConfirmDialog::for_host(9, "db".to_string());
    dialog.handle_key_down("a");
    assert!(dialog.take_events().is_empty());
    dialog.handle_key_down("enter");
    dialog.handle_key_down("escape");
    let events = dialog.take_events();
    assert_eq!(events.len(), 2);
    match &events[0] {
        DeleteConfirmEvent::Confirmed(t) => {
            assert_eq!(t.host_id(), Some(9));
            assert_eq!(t.host_name(), Some("db"));
        }
        DeleteConfirmEvent::Cancelled => panic!("expected a confirmation"),
    }
    assert!(matches!(events[1], DeleteConfirmEvent::Cancelled));
}

#[test]
fn test_error_notification_builder() {
    let n = ErrorNotification::new()
        .with_title("Connection Failed".to_string())
        .with_message("Failed to connect to host".to_string())
        .with_retry(true)
        .with_auto_dismiss(false);

    assert_eq!(n.title, "Connection Failed");
    assert_eq!(n.message, "Failed to connect to host");
    assert!(n.show_retry);
    assert!(!n.auto_dismiss);
}

#[test]
fn error_notification_defaults_and_events() {
    let mut n = ErrorNotification::new();
    assert_eq!(n.title, "Error");
    assert_eq!(n.message, "");
    assert!(!n.show_retry);
    assert!(n.auto_dismiss);
    assert_eq!(n.dismiss_delay_secs, 8);
    let mut n2 = ErrorNotification::new().with_dismiss_delay(3).with_on_retry();
    assert_eq!(n2.dismiss_delay_secs, 3);
    assert!(n2.show_retry);
    n2.handle_retry();
    n.close();
    assert_eq!(n2.take_events(), vec![ErrorNotificationEvent::RetryRequested]);
    assert_eq!(n.take_events(), vec![ErrorNotificationEvent::Closed]);
}
