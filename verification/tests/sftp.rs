use zeterm::ui::sftp::file_list::{
    get_file_icon, sort_dir_entries, DirEntry, EntryType, FileListEvent, FileListView, SortColumn,
    SortOrder, DOUBLE_CLICK_MS,
};
use zeterm::ui::sftp::path_bar::{build_path_to_index, parse_path, PathBar, PathBarEvent, PathBarMode};
use zeterm::ui::sftp::sftp_view::{starts_with, SftpRequest, SftpView, SftpViewEvent, SftpViewMode};
use zeterm::ui::sftp::transfer_queue::{
    ProgressSummary, TransferDirection, TransferFilter, TransferItem, TransferProgress,
    TransferQueueEvent, TransferQueueView, TransferState, TransferTaskId,
};

fn entry(name: &str, kind: EntryType, size: u64) -> DirEntry {
    let mut e = DirEntry::new(name, &format!("/d/{}", name), kind);
    e.size = size;
    e
}

#[test]
fn test_sort_column_title() {
    assert_eq!(SortColumn::Name.title(), "Name");
    assert_eq!(SortColumn::Size.title(), "Size");
    assert_eq!(SortColumn::Modified.title(), "Modified");
    assert_eq!(SortColumn::Type.title(), "Type");
}

#[test]
fn test_sort_column_all() {
    let all = SortColumn::all();
    assert_eq!(all.len(), 4);
    assert!(all.contains(&SortColumn::Name));
    assert!(all.contains(&SortColumn::Size));
}

#[test]
fn test_sort_order_toggle() {
    assert_eq!(SortOrder::Ascending.toggle(), SortOrder::Descending);
    assert_eq!(SortOrder::Descending.toggle(), SortOrder::Ascending);
}

#[test]
fn test_sort_order_icon() {
    assert_eq!(SortOrder::Ascending.icon(), "▲");
    assert_eq!(SortOrder::Descending.icon(), "▼");
}

#[test]
fn test_file_icon_directory() {
    let dir = DirEntry::new("test", "/test", EntryType::Directory);
    assert_eq!(get_file_icon(&dir), "📁");
}

#[test]
fn test_file_icon_symlink() {
    let link = DirEntry::new("link", "/link", EntryType::Symlink);
    assert_eq!(get_file_icon(&link), "🔗");
}

#[test]
fn test_file_icon_by_extension() {
    let rs = DirEntry::new("main.rs", "/main.rs", EntryType::File);
    assert_eq!(get_file_icon(&rs), "📜");

    let png = DirEntry::new("image.png", "/image.png", EntryType::File);
    assert_eq!(get_file_icon(&png), "🖼");

    let zip = DirEntry::new("archive.zip", "/archive.zip", EntryType::File);
    assert_eq!(get_file_icon(&zip), "📦");

    let pdf = DirEntry::new("document.pdf", "/document.pdf", EntryType::File);
    assert_eq!(get_file_icon(&pdf), "📕");
}

#[test]
fn file_icon_ignores_case_and_defaults() {
    assert_eq!(get_file_icon(&DirEntry::new("IMAGE.PNG", "/I", EntryType::File)), "🖼");
    assert_eq!(get_file_icon(&DirEntry::new("README", "/R", EntryType::File)), "📄");
    assert_eq!(get_file_icon(&DirEntry::new("dev", "/dev", EntryType::Other)), "❓");
}

#[test]
fn dir_entry_extension_and_hidden() {
    assert_eq!(DirEntry::new("a.tar.gz", "/a", EntryType::File).extension(), Some("gz"));
    assert_eq!(DirEntry::new(".bashrc", "/b", EntryType::File).extension(), None);
    assert_eq!(DirEntry::new("noext", "/n", EntryType::File).extension(), None);
    assert!(DirEntry::new(".bashrc", "/b", EntryType::File).is_hidden());
    assert!(!DirEntry::new("x", "/x", EntryType::File).is_hidden());
    assert!(DirEntry::new("d", "/d", EntryType::Directory).is_dir());
}

#[test]
fn test_file_list_event_debug() {
    let event = FileListEvent::Selected("/test/file.txt".to_string());
    assert!(format!("{:?}", event).contains("Selected"));
    let event2 = FileListEvent::Opened("/home".to_string());
    assert!(format!("{:?}", event2).contains("Opened"));
}

#[test]
fn test_sort_change_event() {
    let event = FileListEvent::SortChanged {
        column: SortColumn::Size,
        order: SortOrder::Descending,
    };
    let debug_str = format!("{:?}", event);
    assert!(debug_str.contains("SortChanged"));
    assert!(debug_str.contains("Size"));
    assert!(debug_str.contains("Descending"));
}

#[test]
fn test_context_menu_event() {
    let event = FileListEvent::ContextMenu {
        path: "/home/user/file.txt".to_string(),
        position: (100, 200),
    };
    let debug_str = format!("{:?}", event);
    assert!(debug_str.contains("ContextMenu"));
    assert!(debug_str.contains("file.txt"));
}

#[test]
fn test_double_click_constant() {
    assert_eq!(DOUBLE_CLICK_MS, 500);
}

#[test]
fn sorting_puts_directories_first() {
    let sorted = sort_dir_entries(
        vec![
            entry("b.txt", EntryType::File, 5),
            entry("Zeta", EntryType::Directory, 0),
            entry("a.txt", EntryType::File, 9),
            entry("alpha", EntryType::Directory, 0),
        ],
        SortColumn::Name,
        SortOrder::Ascending,
    );
    let names: Vec<&str> = sorted.iter().map(|e| e.name.as_str()).collect();
    assert_eq!(names, vec!["alpha", "Zeta", "a.txt", "b.txt"]);

    let by_size = sort_dir_entries(
        vec![
            entry("small", EntryType::File, 1),
            entry("dir", EntryType::Directory, 0),
            entry("big", EntryType::File, 100),
        ],
        SortColumn::Size,
        SortOrder::Descending,
    );
    let names: Vec<&str> = by_size.iter().map(|e| e.name.as_str()).collect();
    assert_eq!(names, vec!["dir", "big", "small"]);
}

#[test]
fn file_list_clicks_select_and_open() {
    let mut list = FileListView::new();
    list.set_entries(vec![
        entry("b.txt", EntryType::File, 1),
        entry(".hidden", EntryType::File, 1),
        entry("a", EntryType::Directory, 0),
    ]);
    assert_eq!(list.visible_entries().len(), 2);
    assert_eq!(list.status_text(), "2 items");
    list.handle_row_click(0, 1000);
    assert_eq!(list.selected_entry().map(|e| e.name.as_str()), Some("a"));
    list.handle_row_click(0, 1200);
    let events = list.take_events();
    assert_eq!(events.len(), 2);
    assert!(matches!(&events[0], FileListEvent::Selected(p) if p == "/d/a"));
    assert!(matches!(&events[1], FileListEvent::Opened(p) if p == "/d/a"));
    list.handle_row_click(1, 5000);
    list.handle_row_click(1, 6000);
    let events = list.take_events();
    assert_eq!(events.len(), 2);
    assert!(matches!(&events[1], FileListEvent::Selected(p) if p == "/d/b.txt"));
    list.set_show_hidden(true);
    assert_eq!(list.visible_entries().len(), 3);
}

#[test]
fn file_list_multi_selection() {
    let mut list = FileListView::new();
    list.set_entries(vec![
        entry("x", EntryType::File, 1),
        entry("y", EntryType::File, 1),
    ]);
    list.set_multi_select_mode(true);
    list.handle_row_click(0, 0);
    list.handle_row_click(1, 10_000);
    assert_eq!(list.status_text(), "2 items (2 selected)");
    assert_eq!(list.selected_entries().len(), 2);
    list.handle_row_click(0, 20_000);
    assert_eq!(list.status_text(), "2 items (1 selected)");
    let events = list.take_events();
    assert!(matches!(events.last(), Some(FileListEvent::MultiSelected(v)) if v == &vec!["/d/y".to_string()]));
}

#[test]
fn file_list_sort_toggle() {
    let mut list = FileListView::new();
    list.toggle_sort_column(SortColumn::Name);
    list.toggle_sort_column(SortColumn::Size);
    let events = list.take_events();
    assert!(matches!(
        events[0],
        FileListEvent::SortChanged { column: SortColumn::Name, order: SortOrder::Descending }
    ));
    assert!(matches!(
        events[1],
        FileListEvent::SortChanged { column: SortColumn::Size, order: SortOrder::Ascending }
    ));
}

#[test]
fn test_parse_path_root() {
    assert_eq!(parse_path("/"), vec!["/"]);
}

#[test]
fn test_parse_path_simple() {
    assert_eq!(parse_path("/home"), vec!["/", "home"]);
}

#[test]
fn test_parse_path_nested() {
    assert_eq!(parse_path("/home/user/documents"), vec!["/", "home", "user", "documents"]);
}

#[test]
fn test_parse_path_trailing_slash() {
    assert_eq!(parse_path("/home/user/"), vec!["/", "home", "user"]);
}

#[test]
fn parse_path_drops_empty_parts() {
    assert_eq!(parse_path("//a//b"), vec!["/", "a", "b"]);
    assert_eq!(parse_path(""), vec!["/"]);
}

#[test]
fn build_path_to_index_joins_the_breadcrumbs() {
    let segments = parse_path("/home/user/documents");
    assert_eq!(build_path_to_index(&segments, 0), "/");
    assert_eq!(build_path_to_index(&segments, 1), "/home");
    assert_eq!(build_path_to_index(&segments, 3), "/home/user/documents");
}

#[test]
fn test_path_bar_event_debug() {
    let event = PathBarEvent::NavigateTo("/test".to_string());
    assert!(format!("{:?}", event).contains("NavigateTo"));
}

#[test]
fn path_bar_history() {
    let mut bar = PathBar::new();
    assert_eq!(bar.current_path(), "/");
    assert!(!bar.can_go_back());
    assert!(!bar.can_go_up());
    bar.set_path("/home");
    bar.set_path("/home/user");
    assert!(bar.can_go_back());
    assert!(!bar.can_go_forward());
    assert!(bar.can_go_up());
    bar.go_back();
    assert_eq!(bar.current_path(), "/home");
    assert!(bar.can_go_forward());
    let events = bar.take_events();
    assert!(matches!(&events[0], PathBarEvent::NavigateTo(p) if p == "/home"));
    bar.go_forward();
    assert_eq!(bar.current_path(), "/home/user");
    bar.go_back();
    bar.set_path("/tmp");
    assert!(!bar.can_go_forward());
    assert_eq!(bar.current_path(), "/tmp");
    bar.go_back();
    assert_eq!(bar.current_path(), "/home");
}

#[test]
fn path_bar_editing() {
    let mut bar = PathBar::new();
    bar.set_path("/var");
    bar.handle_key_down("x", false, false);
    assert_eq!(bar.edit_text(), "/var");
    bar.enter_edit_mode();
    assert_eq!(bar.mode(), PathBarMode::Edit);
    bar.handle_key_down("/", false, false);
    bar.handle_key_down("l", false, false);
    bar.handle_key_down("g", true, false);
    bar.handle_key_down("o", false, false);
    bar.handle_key_down("g", false, false);
    bar.handle_key_down("backspace", false, false);
    assert_eq!(bar.edit_text(), "/var/lo");
    bar.handle_key_down("enter", false, false);
    assert_eq!(bar.mode(), PathBarMode::Display);
    let events = bar.take_events();
    assert!(matches!(&events[0], PathBarEvent::NavigateTo(p) if p == "/var/lo"));
    bar.navigate_to_segment(0);
    let events = bar.take_events();
    assert!(matches!(&events[0], PathBarEvent::NavigateTo(p) if p == "/"));
}

#[test]
fn test_sftp_view_mode_title() {
    assert_eq!(SftpViewMode::Browse.title(), "Browse");
    assert_eq!(SftpViewMode::Transfers.title(), "Transfers");
    assert_eq!(SftpViewMode::Split.title(), "Split View");
}

#[test]
fn test_sftp_view_mode_icon() {
    assert_eq!(SftpViewMode::Browse.icon(), "📁");
    assert_eq!(SftpViewMode::Transfers.icon(), "📦");
    assert_eq!(SftpViewMode::Split.icon(), "⧉");
}

#[test]
fn test_sftp_view_event_debug() {
    let event = SftpViewEvent::FileSelected("/test/path".to_string());
    assert!(format!("{:?}", event).contains("FileSelected"));
    let event2 = SftpViewEvent::CloseRequested;
    assert!(format!("{:?}", event2).contains("CloseRequested"));
}

#[test]
fn test_sftp_view_event_transfer() {
    let event = SftpViewEvent::TransferStarted(TransferTaskId(42));
    assert!(format!("{:?}", event).contains("TransferStarted"));
    let event2 = SftpViewEvent::TransferFailed {
        task_id: TransferTaskId(1),
        error: "Connection lost".to_string(),
    };
    let debug_str2 = format!("{:?}", event2);
    assert!(debug_str2.contains("TransferFailed"));
    assert!(debug_str2.contains("Connection lost"));
}

#[test]
fn test_sftp_view_event_download() {
    let event = SftpViewEvent::DownloadRequested {
        remote_path: "/remote/file.txt".to_string(),
        local_path: Some("/local/file.txt".to_string()),
    };
    let debug_str = format!("{:?}", event);
    assert!(debug_str.contains("DownloadRequested"));
    assert!(debug_str.contains("remote/file.txt"));
}

#[test]
fn test_sftp_view_event_upload() {
    let event = SftpViewEvent::UploadRequested {
        local_paths: vec!["/local/a.txt".to_string(), "/local/b.txt".to_string()],
        remote_dir: "/remote/dir".to_string(),
    };
    let debug_str = format!("{:?}", event);
    assert!(debug_str.contains("UploadRequested"));
    assert!(debug_str.contains("remote/dir"));
}

#[test]
fn sftp_view_loads_directories() {
    let mut view = SftpView::new();
    assert!(view.load_directory().is_none());
    view.set_connected(true);
    match view.navigate_to("/srv".to_string()) {
        Some(SftpRequest::ListDir(p)) => assert_eq!(p, "/srv"),
        other => panic!("expected a listing, got {:?}", other),
    }
    assert!(view.refresh().is_none());
    view.on_directory_loaded("/srv", Ok(vec![entry("f", EntryType::File, 3)]));
    assert_eq!(view.file_list().visible_entries().len(), 1);
    assert!(view.refresh().is_some());
    view.on_directory_loaded("/srv", Err("denied".to_string()));
    assert_eq!(view.current_path(), "/srv");
    assert!(starts_with("/srv/a", "/srv"));
    assert!(!starts_with("/sr", "/srv"));
}

fn progress(direction: TransferDirection, state: TransferState) -> TransferProgress {
    let mut p = TransferProgress::new(direction, "/local/file.txt", "/remote/file.txt", 1000);
    p.state = state;
    p.transferred_bytes = 500;
    p.speed_bps = 1024;
    p
}

#[test]
fn test_transfer_item_file_name() {
    let item = TransferItem::new(TransferTaskId(1), progress(TransferDirection::Upload, TransferState::InProgress));
    assert_eq!(item.file_name(), "file.txt");
}

#[test]
fn test_transfer_item_direction_icon() {
    let up = TransferItem::new(TransferTaskId(1), progress(TransferDirection::Upload, TransferState::InProgress));
    assert_eq!(up.direction_icon(), "⬆️");
    let down = TransferItem::new(TransferTaskId(2), progress(TransferDirection::Download, TransferState::InProgress));
    assert_eq!(down.direction_icon(), "⬇️");
}

#[test]
fn test_transfer_item_status_icon() {
    let icon = |s| TransferItem::new(TransferTaskId(1), progress(TransferDirection::Upload, s)).status_icon();
    assert_eq!(icon(TransferState::Pending), "⏳");
    assert_eq!(icon(TransferState::InProgress), "🔄");
    assert_eq!(icon(TransferState::Completed), "✅");
    assert_eq!(icon(TransferState::Failed), "❌");
}

#[test]
fn test_transfer_item_can_pause() {
    let item = TransferItem::new(TransferTaskId(1), progress(TransferDirection::Upload, TransferState::InProgress));
    assert!(item.can_pause());
    let item2 = TransferItem::new(TransferTaskId(2), progress(TransferDirection::Upload, TransferState::Paused));
    assert!(!item2.can_pause());
}

#[test]
fn test_transfer_item_can_resume() {
    let item = TransferItem::new(TransferTaskId(1), progress(TransferDirection::Upload, TransferState::Paused));
    assert!(item.can_resume());
    let item2 = TransferItem::new(TransferTaskId(2), progress(TransferDirection::Upload, TransferState::InProgress));
    assert!(!item2.can_resume());
}

#[test]
fn test_transfer_item_can_cancel() {
    let item = TransferItem::new(TransferTaskId(1), progress(TransferDirection::Upload, TransferState::InProgress));
    assert!(item.can_cancel());
    let item2 = TransferItem::new(TransferTaskId(2), progress(TransferDirection::Upload, TransferState::Completed));
    assert!(!item2.can_cancel());
}

#[test]
fn test_transfer_item_can_retry() {
    let item = TransferItem::new(TransferTaskId(1), progress(TransferDirection::Upload, TransferState::Failed));
    assert!(item.can_retry());
    let item2 = TransferItem::new(TransferTaskId(2), progress(TransferDirection::Upload, TransferState::Cancelled));
    assert!(item2.can_retry());
    let item3 = TransferItem::new(TransferTaskId(3), progress(TransferDirection::Upload, TransferState::Completed));
    assert!(!item3.can_retry());
}

#[test]
fn test_transfer_item_is_terminated() {
    let t = |s| TransferItem::new(TransferTaskId(1), progress(TransferDirection::Upload, s)).is_terminated();
    assert!(t(TransferState::Completed));
    assert!(t(TransferState::Failed));
    assert!(!t(TransferState::InProgress));
}

#[test]
fn test_transfer_filter_matches() {
    let active = TransferItem::new(TransferTaskId(1), progress(TransferDirection::Upload, TransferState::InProgress));
    let completed = TransferItem::new(TransferTaskId(2), progress(TransferDirection::Upload, TransferState::Completed));
    let failed = TransferItem::new(TransferTaskId(3), progress(TransferDirection::Upload, TransferState::Failed));

    assert!(TransferFilter::All.matches(&active));
    assert!(TransferFilter::All.matches(&completed));
    assert!(TransferFilter::All.matches(&failed));

    assert!(TransferFilter::Active.matches(&active));
    assert!(!TransferFilter::Active.matches(&completed));
    assert!(!TransferFilter::Active.matches(&failed));

    assert!(!TransferFilter::Completed.matches(&active));
    assert!(TransferFilter::Completed.matches(&completed));
    assert!(!TransferFilter::Completed.matches(&failed));

    assert!(!TransferFilter::Failed.matches(&active));
    assert!(!TransferFilter::Failed.matches(&completed));
    assert!(TransferFilter::Failed.matches(&failed));
}

#[test]
fn test_transfer_filter_title() {
    assert_eq!(TransferFilter::All.title(), "All");
    assert_eq!(TransferFilter::Active.title(), "Active");
    assert_eq!(TransferFilter::Completed.title(), "Completed");
    assert_eq!(TransferFilter::Failed.title(), "Failed");
}

#[test]
fn test_transfer_filter_all() {
    let all = TransferFilter::all();
    assert_eq!(all.len(), 4);
    assert!(all.contains(&TransferFilter::All));
    assert!(all.contains(&TransferFilter::Active));
    assert!(all.contains(&TransferFilter::Completed));
    assert!(all.contains(&TransferFilter::Failed));
}

#[test]
fn test_transfer_queue_event_debug() {
    let event = TransferQueueEvent::CancelRequested(TransferTaskId(42));
    assert!(format!("{:?}", event).contains("CancelRequested"));
    let event2 = TransferQueueEvent::ClearCompleted;
    assert!(format!("{:?}", event2).contains("ClearCompleted"));
}

#[test]
fn transfer_queue_operations() {
    let mut queue = TransferQueueView::new();
    queue.add_transfer(TransferTaskId(1), progress(TransferDirection::Upload, TransferState::InProgress));
    queue.add_transfer(TransferTaskId(2), progress(TransferDirection::Download, TransferState::Completed));
    queue.add_transfer(TransferTaskId(3), progress(TransferDirection::Download, TransferState::Pending));
    assert_eq!(queue.transfer_count(), 3);
    assert_eq!(queue.active_count(), 2);
    assert_eq!(
        queue.progress_summary(),
        ProgressSummary::Bytes { transferred: 1000, total: 2000 }
    );
    queue.set_filter(TransferFilter::Completed);
    assert_eq!(queue.filtered_transfers().len(), 1);
    queue.clear_completed();
    assert_eq!(queue.transfer_count(), 2);
    assert_eq!(queue.active_count(), 2);
    queue.update_transfer_state(TransferTaskId(1), TransferState::Completed);
    queue.update_transfer_state(TransferTaskId(3), TransferState::Failed);
    assert_eq!(queue.active_count(), 0);
    assert_eq!(queue.progress_summary(), ProgressSummary::NothingActive);
    queue.remove_transfer(TransferTaskId(1));
    assert_eq!(queue.transfer_count(), 1);
    queue.toggle_collapsed();
    assert!(queue.is_collapsed());
    queue.clear_all();
    assert_eq!(queue.transfer_count(), 0);
}

#[test]
fn sftp_view_goes_up_to_the_parent() {
    let mut view = SftpView::new();
    view.set_connected(true);
    view.navigate_to("/srv/data/logs".to_string());
    match view.handle_path_bar_event(&PathBarEvent::GoUp) {
        Some(SftpRequest::ListDir(p)) => assert_eq!(p, "/srv/data"),
        other => panic!("expected a listing, got {:?}", other),
    }
    assert_eq!(view.current_path(), "/srv/data");
    view.navigate_to("/srv".to_string());
    match view.handle_path_bar_event(&PathBarEvent::GoUp) {
        Some(SftpRequest::ListDir(p)) => assert_eq!(p, "/"),
        other => panic!("expected a listing, got {:?}", other),
    }
    view.navigate_to("/".to_string());
    assert!(view.handle_path_bar_event(&PathBarEvent::GoUp).is_none());
    assert_eq!(view.current_path(), "/");
}

#[test]
fn sorting_keeps_equal_keys_in_order() {
    let sorted = sort_dir_entries(
        vec![
            entry("B.txt", EntryType::File, 1),
            entry("a.txt", EntryType::File, 2),
            entry("b.TXT", EntryType::File, 3),
            entry("b.txt", EntryType::File, 4),
        ],
        SortColumn::Name,
        SortOrder::Ascending,
    );
    let sizes: Vec<u64> = sorted.iter().map(|e| e.size).collect();
    assert_eq!(sizes, vec![2, 1, 3, 4]);

    let by_size = sort_dir_entries(
        vec![entry("x", EntryType::File, 5), entry("y", EntryType::File, 5), entry("z", EntryType::File, 1)],
        SortColumn::Size,
        SortOrder::Descending,
    );
    let names: Vec<&str> = by_size.iter().map(|e| e.name.as_str()).collect();
    assert_eq!(names, vec!["x", "y", "z"]);
}

#[test]
fn sftp_view_path_bar_requests() {
    let mut view = SftpView::new();
    assert!(view.handle_path_bar_event(&PathBarEvent::NavigateTo("/tmp".to_string())).is_none());
    assert_eq!(view.current_path(), "/tmp");
    view.set_connected(true);
    match view.handle_path_bar_event(&PathBarEvent::NavigateTo("/var".to_string())) {
        Some(SftpRequest::ListDir(p)) => assert_eq!(p, "/var"),
        other => panic!("expected a listing, got {:?}", other),
    }
    // Still being listed: not asked again.
    assert!(view.handle_path_bar_event(&PathBarEvent::Refresh).is_none());
    view.on_directory_loaded("/var", Ok(vec![]));
    match view.handle_path_bar_event(&PathBarEvent::Refresh) {
        Some(SftpRequest::ListDir(p)) => assert_eq!(p, "/var"),
        other => panic!("expected a listing, got {:?}", other),
    }
}
