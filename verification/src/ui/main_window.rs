//! The main window's state: the tabs with their layouts, the views
//! registered for each tab and pane, the terminal panes, the status bar,
//! the themes, the host list and the notifications; and the decisions of
//! the window's commands. The owner makes the terminal views and the
//! session coordinators (`V` and `C` here) and does the rendering.

use vstd::prelude::*;

use crate::assoc::find;
use crate::entities::HostConfig;
use crate::text::owned;
use crate::ui::app_theme::{
    all_themes, next_of, prev_of, theme_for_mode, theme_is_dark, AppThemeManager, BuiltinTheme, TerminalTheme, ThemeConfig, ThemeMode, FULL_OPACITY, toggled_mode, toggled_theme, theme_switch_events,
    mode_switch_events, theme_name, builtin_colors, colors_seq,
};
use crate::ui::connection_manager::begin_connect;
use crate::ui::dialogs::error_notification::ErrorNotification;
use crate::ui::dialogs::host_connection_dialog::HostConnectionDialog;
use crate::ui::host_list::host_list_view::{HostListEvent, HostListView};
use crate::ui::split_pane::{
    contains_node, focus_node, focus_step, leaves, HALF_RATIO, Pane, PaneContent, PaneId, SplitDirection,
    SplitManager, SplitManagerEvent,
};
use crate::ui::split_view::SplitView;
use crate::ui::status_bar::{ConnectionStatus, StatusBar, StatusInfo};
use crate::ui::tab_manager::{TabData, TabId, TabInfo, TabManager, TabManagerEvent};
use crate::ui::tab_view::{pane_view, TabView};
use crate::ui::terminal_pane_manager::{off_tab, on_tab, TerminalPaneData, TerminalPaneManager};

verus! {

/// `np` is a new terminal pane titled `title`: unfocused, its terminal
/// named as its node.
pub open spec fn fresh_terminal(np: Pane, title: Seq<char>) -> bool {
    &&& np.content == (PaneContent::Terminal { pane_id: np.id, title: np.content->title, focused: false })
    &&& np.content->title@ == title
}

/// What adding the terminal pane `np` to a tab does to its layout `old`:
/// an empty layout gets `np` as its root, focused; otherwise the focused
/// pane, if any, is split left and right with a new terminal pane of the
/// layout's own (while the count has room).
pub open spec fn pane_added(old: SplitManager, new: SplitManager, np: Pane) -> bool {
    if old.root_spec() is None {
        &&& new.root_spec() == Some(focus_node(np, np.id))
        &&& new.focused_spec() == Some(np.id)
        &&& new.count_spec() == 1
        &&& new.events_spec() == old.events_spec().push(SplitManagerEvent::LayoutChanged).push(
            SplitManagerEvent::FocusChanged(np.id),
        )
    } else {
        match old.focused_spec() {
            Some(f) => if old.count_spec() < usize::MAX {
                exists|r: Option<PaneId>| SplitManager::split_outcome(old, new, f, SplitDirection::Horizontal, r)
            } else {
                new == old
            },
            None => new == old,
        }
    }
}

/// `new` is `old` with `view` registered for `pane`.
pub open spec fn view_registered<V>(old: SplitView<V>, new: SplitView<V>, pane: PaneId, view: V) -> bool {
    &&& new.wf()
    &&& forall|p: PaneId| #[trigger] find(new.views_spec(), p) == if p == pane {
        Some(view)
    } else {
        find(old.views_spec(), p)
    }
    &&& new.drag_spec() == old.drag_spec()
}

/// `new` is `old` with the view of `pane` forgotten.
pub open spec fn view_unregistered<V>(old: SplitView<V>, new: SplitView<V>, pane: PaneId) -> bool {
    &&& new.wf()
    &&& forall|p: PaneId| #[trigger] find(new.views_spec(), p) == if p == pane {
        None
    } else {
        find(old.views_spec(), p)
    }
    &&& new.drag_spec() == old.drag_spec()
}

/// `new` is `old` with a clone of `view` registered for `pane`.
pub open spec fn clone_registered<V: Clone>(old: SplitView<V>, new: SplitView<V>, pane: PaneId, view: V) -> bool {
    &&& new.wf()
    &&& find(new.views_spec(), pane) matches Some(x) && cloned(view, x)
    &&& forall|p: PaneId| p != pane ==> #[trigger] find(new.views_spec(), p) == find(old.views_spec(), p)
    &&& new.drag_spec() == old.drag_spec()
}

/// A layout with no pane, no focus and no event.
pub open spec fn empty_layout(m: SplitManager) -> bool {
    &&& m.root_spec() is None
    &&& m.focused_spec() is None
    &&& m.count_spec() == 0
    &&& m.events_spec().len() == 0
}

/// `b` agrees with `a` on the side panels, the theme, the notifications and
/// the bars' visibility.
pub open spec fn same_panels<V, C>(a: MainWindow<V, C>, b: MainWindow<V, C>) -> bool {
    &&& b.theme_manager == a.theme_manager
    &&& b.host_list_view == a.host_list_view
    &&& b.connection_dialog == a.connection_dialog
    &&& b.error_notification == a.error_notification
    &&& b.pending_errors == a.pending_errors
    &&& b.show_sidebar == a.show_sidebar
    &&& b.show_tab_bar == a.show_tab_bar
}

/// `b` agrees with `a` on the tab bar's settings.
pub open spec fn same_bar_settings<S, T>(a: TabView<S, T>, b: TabView<S, T>) -> bool {
    &&& b.new_tab_button_spec() == a.new_tab_button_spec()
    &&& b.close_buttons_spec() == a.close_buttons_spec()
    &&& b.height_spec() == a.height_spec()
}

/// What `create_tab(tab_info)` does: refused as the tab manager refuses;
/// otherwise the tab is added with an empty layout, and an empty split
/// view is registered for it.
pub open spec fn tab_created<V, C>(old: MainWindow<V, C>, new: MainWindow<V, C>, tab_info: TabInfo, r: Option<TabId>) -> bool {
    if TabManager::add_refused(old.tab_manager, tab_info.id) {
        r is None && new == old
    } else {
        &&& r == Some(tab_info.id)
        &&& new.tab_manager.layout_spec(tab_info.id) matches Some(sm) && empty_layout(sm)
            && TabManager::added_outcome(old.tab_manager, new.tab_manager, tab_info, sm)
        &&& find(new.tab_view.split_views_spec(), tab_info.id) matches Some(sv) && sv.wf()
            && sv.views_spec().len() == 0 && sv.drag_spec() is None
        &&& forall|t: TabId| t != tab_info.id ==> #[trigger] find(new.tab_view.split_views_spec(), t) == find(
            old.tab_view.split_views_spec(),
            t,
        )
        &&& new.tab_view.terminal_views_spec() == old.tab_view.terminal_views_spec()
        &&& same_bar_settings(old.tab_view, new.tab_view)
        &&& new.terminal_panes == old.terminal_panes
        &&& new.terminal_pane_manager == old.terminal_pane_manager
        &&& new.status_bar == old.status_bar
        &&& same_panels(old, new)
    }
}

/// What `add_terminal_pane(tab_id, title, coordinator, view)` does: nothing
/// when the tab does not exist; otherwise a new terminal pane titled
/// `title` is made, its data (a clone of `view`, `coordinator`, the tab)
/// recorded, a clone of `view` registered in the tab's split view and
/// `view` in the tab view, and the tab's layout takes the pane as
/// `pane_added` says. The answer is the new pane's identifier.
pub open spec fn terminal_pane_added<V: Clone, C>(
    old: MainWindow<V, C>,
    new: MainWindow<V, C>,
    tab_id: TabId,
    title: Seq<char>,
    coordinator: C,
    view: V,
    r: Option<PaneId>,
) -> bool {
    match old.tab_manager.layout_spec(tab_id) {
        None => r is None && new == old,
        Some(layout) => exists|np: Pane|
            {
                &&& #[trigger] fresh_terminal(np, title)
                &&& r == Some(np.id)
                &&& new.tab_manager.layout_spec(tab_id) matches Some(l2) && pane_added(layout, l2, np)
                    && TabManager::layout_replaced(old.tab_manager, new.tab_manager, tab_id, l2)
                &&& find(new.terminal_panes.panes_spec(), np.id) matches Some(d) && cloned(view, d.terminal_view)
                    && d.coordinator == coordinator && d.tab_id == tab_id
                &&& forall|p: PaneId| p != np.id ==> #[trigger] find(new.terminal_panes.panes_spec(), p) == find(
                    old.terminal_panes.panes_spec(),
                    p,
                )
                &&& match find(old.tab_view.split_views_spec(), tab_id) {
                    Some(sv) => find(new.tab_view.split_views_spec(), tab_id) matches Some(nv) && clone_registered(
                        sv,
                        nv,
                        np.id,
                        view,
                    ),
                    None => find(new.tab_view.split_views_spec(), tab_id) is None,
                }
                &&& forall|t: TabId| t != tab_id ==> #[trigger] find(new.tab_view.split_views_spec(), t) == find(
                    old.tab_view.split_views_spec(),
                    t,
                )
                &&& forall|t: TabId, p: PaneId| #[trigger] pane_view(new.tab_view.terminal_views_spec(), t, p)
                    == if t == tab_id && p == np.id {
                    Some(view)
                } else {
                    pane_view(old.tab_view.terminal_views_spec(), t, p)
                }
                &&& same_bar_settings(old.tab_view, new.tab_view)
                &&& new.terminal_pane_manager == old.terminal_pane_manager
                &&& new.status_bar == old.status_bar
                &&& same_panels(old, new)
            },
    }
}

/// The status bar's information with the connection shown as `status`
/// and the user and host as given.
pub open spec fn status_with(info: StatusInfo, status: ConnectionStatus, username: Option<String>, hostname: Option<String>) -> StatusInfo {
    StatusInfo { connection_status: status, username, hostname, ..info }
}

/// What `close_terminal_pane(pane_id)` does: the pane's data is forgotten;
/// when there was some, the pane leaves its tab's split view, the tab view
/// and (when allowed) its tab's layout. Then, when the active tab has no
/// terminal pane left, the status bar shows no connection, user or host.
pub open spec fn terminal_pane_closed<V, C>(old: MainWindow<V, C>, new: MainWindow<V, C>, pane_id: PaneId) -> bool {
    &&& forall|p: PaneId| #[trigger] find(new.terminal_panes.panes_spec(), p) == if p == pane_id {
        None
    } else {
        find(old.terminal_panes.panes_spec(), p)
    }
    &&& match find(old.terminal_panes.panes_spec(), pane_id) {
        Some(d) => {
            let t = d.tab_id;
            &&& match find(old.tab_view.split_views_spec(), t) {
                Some(sv) => find(new.tab_view.split_views_spec(), t) matches Some(nv) && view_unregistered(
                    sv,
                    nv,
                    pane_id,
                ),
                None => find(new.tab_view.split_views_spec(), t) is None,
            }
            &&& forall|x: TabId| x != t ==> #[trigger] find(new.tab_view.split_views_spec(), x) == find(
                old.tab_view.split_views_spec(),
                x,
            )
            &&& forall|t2: TabId, p: PaneId| #[trigger] pane_view(new.tab_view.terminal_views_spec(), t2, p)
                == if t2 == t && p == pane_id {
                None
            } else {
                pane_view(old.tab_view.terminal_views_spec(), t2, p)
            }
            &&& match old.tab_manager.layout_spec(t) {
                Some(l) => new.tab_manager.layout_spec(t) matches Some(l2) && TabManager::layout_replaced(
                    old.tab_manager,
                    new.tab_manager,
                    t,
                    l2,
                ) && if SplitManager::close_allowed(l, pane_id) {
                    SplitManager::close_outcome(l, l2, pane_id)
                } else {
                    l2 == l
                },
                None => new.tab_manager == old.tab_manager,
            }
        },
        None => new.tab_view == old.tab_view && new.tab_manager == old.tab_manager,
    }
    &&& if (match old.tab_manager.active_spec() {
        Some(a) => on_tab(new.terminal_panes.panes_spec(), a).len() == 0,
        None => false,
    }) {
        new.status_bar.status_info == status_with(old.status_bar.status_info, ConnectionStatus::Disconnected, None, None)
    } else {
        new.status_bar == old.status_bar
    }
    &&& same_bar_settings(old.tab_view, new.tab_view)
    &&& new.terminal_pane_manager == old.terminal_pane_manager
    &&& same_panels(old, new)
}

/// What closing the tab `tab_id` leaves to clean: its split view, its
/// panes in both registries and its terminal views go; when no tab is
/// left, the status bar shows no connection, user or host. The answer is
/// (clones of) the coordinators of the tab's panes in the registry, whose
/// sessions the caller closes.
pub open spec fn tab_cleaned<V, C: Clone>(old: MainWindow<V, C>, new: MainWindow<V, C>, tab_id: TabId, r: Seq<C>) -> bool {
    let gone = on_tab(old.terminal_pane_manager.panes_spec(), tab_id);
    &&& r.len() == gone.len()
    &&& forall|j: int| 0 <= j < r.len() ==> cloned(gone[j].1.coordinator, #[trigger] r[j])
    &&& find(new.tab_view.split_views_spec(), tab_id) is None
    &&& forall|x: TabId| x != tab_id ==> #[trigger] find(new.tab_view.split_views_spec(), x) == find(
        old.tab_view.split_views_spec(),
        x,
    )
    &&& find(new.tab_view.terminal_views_spec(), tab_id) is None
    &&& forall|x: TabId| x != tab_id ==> #[trigger] find(new.tab_view.terminal_views_spec(), x) == find(
        old.tab_view.terminal_views_spec(),
        x,
    )
    &&& new.terminal_pane_manager.panes_spec() == off_tab(old.terminal_pane_manager.panes_spec(), tab_id)
    &&& new.terminal_panes.panes_spec() == off_tab(old.terminal_panes.panes_spec(), tab_id)
    &&& new.tab_manager == old.tab_manager
    &&& if old.tab_manager.tabs_spec().len() == 0 {
        new.status_bar.status_info == status_with(old.status_bar.status_info, ConnectionStatus::Disconnected, None, None)
    } else {
        new.status_bar == old.status_bar
    }
    &&& same_bar_settings(old.tab_view, new.tab_view)
    &&& same_panels(old, new)
}

/// What switching to the tab `tab_id` shows in the status bar: the host's
/// user and address and a connection for a remote tab, nothing for a local
/// one; nothing changes for a tab that does not exist.
pub open spec fn switch_status<V, C>(old: MainWindow<V, C>, new: MainWindow<V, C>, tab_id: TabId) -> bool {
    &&& match old.tab_manager.info_spec(tab_id) {
        Some(info) => match info.host_config {
            Some(h) => new.status_bar.status_info == status_with(
                old.status_bar.status_info,
                ConnectionStatus::Connected,
                Some(h.username),
                Some(h.host),
            ),
            None => new.status_bar.status_info == status_with(
                old.status_bar.status_info,
                ConnectionStatus::Disconnected,
                None,
                None,
            ),
        },
        None => new.status_bar == old.status_bar,
    }
    &&& new == MainWindow { status_bar: new.status_bar, ..old }
}

/// `w` with the status bar showing `username` and `hostname`.
pub open spec fn with_user_host<V, C>(w: MainWindow<V, C>, username: Option<String>, hostname: Option<String>) -> MainWindow<V, C> {
    MainWindow {
        status_bar: StatusBar { status_info: StatusInfo { username, hostname, ..w.status_bar.status_info } },
        ..w
    }
}

/// The focused pane of the active tab's layout.
pub open spec fn active_focus<V, C>(w: MainWindow<V, C>) -> Option<PaneId> {
    match w.tab_manager.active_spec() {
        Some(a) => match w.tab_manager.layout_spec(a) {
            Some(l) => l.focused_spec(),
            None => None,
        },
        None => None,
    }
}

/// What `split_with_direction(direction, coordinator, view)` does: nothing
/// without an active tab with a focused pane; otherwise a new terminal
/// pane titled `Terminal` is made and registered as `add_terminal_pane`
/// registers one, and the focused pane is split evenly with it in
/// `direction` (while the count has room).
pub open spec fn pane_split_off<V: Clone, C>(
    old: MainWindow<V, C>,
    new: MainWindow<V, C>,
    direction: SplitDirection,
    coordinator: C,
    view: V,
    r: Option<PaneId>,
) -> bool {
    match active_focus(old) {
        None => r is None && new == old,
        Some(f) => exists|np: Pane| #[trigger] split_off_with(old, new, direction, coordinator, view, r, f, np),
    }
}

/// `pane_split_off` with the focused pane `f` and the new pane `np`.
pub open spec fn split_off_with<V: Clone, C>(
    old: MainWindow<V, C>,
    new: MainWindow<V, C>,
    direction: SplitDirection,
    coordinator: C,
    view: V,
    r: Option<PaneId>,
    f: PaneId,
    np: Pane,
) -> bool {
    let a = old.tab_manager.active_spec()->0;
    let l = old.tab_manager.layout_spec(a)->0;
    &&& fresh_terminal(np, "Terminal"@)
    &&& r == Some(np.id)
    &&& new.tab_manager.layout_spec(a) matches Some(l2) && TabManager::layout_replaced(
        old.tab_manager,
        new.tab_manager,
        a,
        l2,
    ) && if l.count_spec() < usize::MAX {
        exists|x: Option<PaneId>| SplitManager::split_with_outcome(l, l2, f, np, direction, HALF_RATIO, x)
    } else {
        l2 == l
    }
    &&& find(new.terminal_panes.panes_spec(), np.id) matches Some(d) && cloned(view, d.terminal_view)
        && d.coordinator == coordinator && d.tab_id == a
    &&& forall|p: PaneId| p != np.id ==> #[trigger] find(new.terminal_panes.panes_spec(), p) == find(
        old.terminal_panes.panes_spec(),
        p,
    )
    &&& match find(old.tab_view.split_views_spec(), a) {
        Some(sv) => find(new.tab_view.split_views_spec(), a) matches Some(nv) && clone_registered(sv, nv, np.id, view),
        None => find(new.tab_view.split_views_spec(), a) is None,
    }
    &&& forall|t: TabId| t != a ==> #[trigger] find(new.tab_view.split_views_spec(), t) == find(
        old.tab_view.split_views_spec(),
        t,
    )
    &&& forall|t: TabId, p: PaneId| #[trigger] pane_view(new.tab_view.terminal_views_spec(), t, p) == if t == a
        && p == np.id {
        Some(view)
    } else {
        pane_view(old.tab_view.terminal_views_spec(), t, p)
    }
    &&& same_bar_settings(old.tab_view, new.tab_view)
    &&& new.terminal_pane_manager == old.terminal_pane_manager
    &&& new.status_bar == old.status_bar
    &&& same_panels(old, new)
}

/// `new` is `old` with only the tab manager changed.
pub open spec fn only_tabs_changed<V, C>(old: MainWindow<V, C>, new: MainWindow<V, C>) -> bool {
    new == MainWindow { tab_manager: new.tab_manager, ..old }
}

/// What moving the focus in the active tab does: its layout moves the
/// focus as `SplitManager::focus_moved` says; without an active tab
/// nothing changes.
pub open spec fn focus_moved_in_window<V, C>(old: MainWindow<V, C>, new: MainWindow<V, C>, forward: bool) -> bool {
    &&& only_tabs_changed(old, new)
    &&& match old.tab_manager.active_spec() {
        Some(a) => match old.tab_manager.layout_spec(a) {
            Some(l) => new.tab_manager.layout_spec(a) matches Some(l2) && TabManager::layout_replaced(
                old.tab_manager,
                new.tab_manager,
                a,
                l2,
            ) && SplitManager::focus_moved(l, l2, forward),
            None => new == old,
        },
        None => new == old,
    }
}

/// `info` is a new local tab titled `title`.
pub open spec fn local_tab_info(info: TabInfo, title: Seq<char>) -> bool {
    &&& info.title@ == title
    &&& info.host_config is None
    &&& info.session_id is None
    &&& !info.is_active
    &&& !info.is_modified
    &&& info.icon is Some && info.icon->0@ == "💻"@
}

/// `info` is a new tab for the remote host `host`, titled `user@host`.
pub open spec fn ssh_tab_info(info: TabInfo, host: HostConfig) -> bool {
    &&& info.title@ == host.username@ + "@"@ + host.host@
    &&& info.host_config == Some(host)
    &&& info.session_id is None
    &&& !info.is_active
    &&& !info.is_modified
    &&& info.icon is Some && info.icon->0@ == "🖥"@
}

/// The steps of `on_new_tab_requested`: a local tab titled `新终端` is
/// created (window `mid`), then made active.
pub open spec fn new_tab_steps<V, C>(old: MainWindow<V, C>, mid: MainWindow<V, C>, new: MainWindow<V, C>, info: TabInfo, r: Option<TabId>) -> bool {
    &&& tab_created(old, mid, info, r)
    &&& local_tab_info(info, "新终端"@)
    &&& match r {
        Some(id) => TabManager::switched(mid.tab_manager, new.tab_manager, id) && only_tabs_changed(mid, new),
        None => new == mid,
    }
}

/// The steps of `connect_to_host(host, coordinator, view)`: a tab for the
/// host is created (window `m1`); then a terminal pane for the host is
/// added to it (window `m2`); then the tab becomes active and the status
/// bar shows a connection under way to the host. The answer is the tab and
/// the pane; `None` when a step fails, which ends the steps.
pub open spec fn connect_steps<V: Clone, C>(
    old: MainWindow<V, C>,
    m1: MainWindow<V, C>,
    m2: MainWindow<V, C>,
    new: MainWindow<V, C>,
    info: TabInfo,
    host: HostConfig,
    coordinator: C,
    view: V,
    r: Option<(TabId, PaneId)>,
) -> bool {
    &&& ssh_tab_info(info, host)
    &&& exists|t: Option<TabId>| #[trigger] tab_created(old, m1, info, t) && match t {
        None => r is None && new == m1,
        Some(tid) => exists|p: Option<PaneId>|
            #[trigger] terminal_pane_added(
                with_user_host(m1, Some(host.username), Some(host.host)),
                m2,
                tid,
                host.username@ + "@"@ + host.host@,
                coordinator,
                view,
                p,
            ) && match p {
                None => r is None && new == m2,
                Some(pid) => {
                    &&& r == Some((tid, pid))
                    &&& m2.tab_manager.ids_spec().contains(tid) ==> TabManager::switched(
                        m2.tab_manager,
                        new.tab_manager,
                        tid,
                    )
                    &&& !m2.tab_manager.ids_spec().contains(tid) ==> new.tab_manager == m2.tab_manager
                    &&& new.status_bar.status_info == status_with(
                        m2.status_bar.status_info,
                        ConnectionStatus::Connecting,
                        Some(host.username),
                        Some(host.host),
                    )
                    &&& new == MainWindow { tab_manager: new.tab_manager, status_bar: new.status_bar, ..m2 }
                },
            },
    }
}

/// The main window's state, over the types of its terminal views `V` and
/// of its sessions' coordinators `C`.
pub struct MainWindow<V, C> {
    pub tab_manager: TabManager,
    /// The split view of each tab, and the terminal view of each pane by
    /// tab.
    pub tab_view: TabView<SplitView<V>, V>,
    /// The terminal panes the window made, by pane.
    pub terminal_panes: TerminalPaneManager<V, C>,
    /// The registry that the pane lookups and the closing of a tab read.
    pub terminal_pane_manager: TerminalPaneManager<V, C>,
    pub status_bar: StatusBar,
    pub theme_manager: AppThemeManager,
    pub host_list_view: HostListView,
    /// The dialog that creates or edits a host.
    pub connection_dialog: Option<HostConnectionDialog>,
    pub error_notification: Option<ErrorNotification>,
    /// Connection errors not yet shown.
    pub pending_errors: Vec<String>,
    pub show_sidebar: bool,
    pub show_tab_bar: bool,
}

impl<V, C> MainWindow<V, C> {
    /// Well-formedness of the parts.
    pub open spec fn wf(&self) -> bool {
        &&& self.tab_manager.wf()
        &&& self.tab_view.wf()
        &&& forall|t: TabId|
            #[trigger] find(self.tab_view.split_views_spec(), t) is Some ==> find(
                self.tab_view.split_views_spec(),
                t,
            )->0.wf()
        &&& self.terminal_panes.wf()
        &&& self.terminal_pane_manager.wf()
        &&& self.host_list_view.wf()
    }

    /// A window with no tab, the default status bar and themes, an empty
    /// host list, and the side bar and tab bar shown.
    pub fn new() -> (r: MainWindow<V, C>)
        ensures
            r.wf(),
            r.tab_manager.tabs_spec().len() == 0,
            r.tab_manager.max_spec() == 0,
            r.tab_manager.events_spec().len() == 0,
            r.tab_manager.active_spec() is None,
            r.tab_view.split_views_spec().len() == 0,
            r.tab_view.terminal_views_spec().len() == 0,
            r.tab_view.new_tab_button_spec(),
            r.tab_view.close_buttons_spec(),
            r.tab_view.height_spec() == 40,
            r.terminal_panes.panes_spec().len() == 0,
            r.terminal_pane_manager.panes_spec().len() == 0,
            r.status_bar.status_info.connection_status == ConnectionStatus::Disconnected,
            r.status_bar.status_info.username is None,
            r.status_bar.status_info.hostname is None,
            r.status_bar.status_info.cols == 80,
            r.status_bar.status_info.rows == 24,
            r.status_bar.status_info.encoding@ == "UTF-8"@,
            r.status_bar.status_info.rtt_ms is None,
            r.status_bar.status_info.cwd is None,
            r.theme_manager.config_spec().mode == ThemeMode::Dark,
            r.theme_manager.config_spec().theme == BuiltinTheme::Dark,
            r.theme_manager.config_spec().custom_theme_path is None,
            r.theme_manager.config_spec().terminal_opacity == FULL_OPACITY,
            !r.theme_manager.config_spec().use_system_font,
            r.theme_manager.events_spec().len() == 0,
            r.host_list_view.hosts_spec().len() == 0,
            r.host_list_view.selected_spec() is None,
            r.host_list_view.last_click_spec() is None,
            forall|g: Seq<char>| r.host_list_view.expanded_spec(g),
            r.host_list_view.context_menu_spec() is None,
            r.host_list_view.connection_dialog is None,
            r.host_list_view.delete_dialog is None,
            r.host_list_view.pending_delete_spec() is None,
            r.connection_dialog is None,
            r.error_notification is None,
            r.pending_errors@.len() == 0,
            r.show_sidebar,
            r.show_tab_bar,
    {
        let r = MainWindow {
            tab_manager: TabManager::new(),
            tab_view: TabView::new(),
            terminal_panes: TerminalPaneManager::new(),
            terminal_pane_manager: TerminalPaneManager::new(),
            status_bar: StatusBar::new(),
            theme_manager: AppThemeManager::new(),
            host_list_view: HostListView::new(),
            connection_dialog: None,
            error_notification: None,
            pending_errors: Vec::new(),
            show_sidebar: true,
            show_tab_bar: true,
        };
        proof {
            assert forall|t: TabId| #[trigger] find(r.tab_view.split_views_spec(), t) is Some implies find(
                r.tab_view.split_views_spec(),
                t,
            )->0.wf() by {}
        }
        r
    }

    /// Registers `view` as the terminal view of `pane` in the split view
    /// of `tab`, if the tab has one.
    fn register_in_split_view(&mut self, tab: TabId, pane: PaneId, view: V)
        requires
            old(self).wf(),
        ensures
            final(self).wf(),
            match find(old(self).tab_view.split_views_spec(), tab) {
                Some(sv) => exists|nv: SplitView<V>|
                    #[trigger] view_registered(sv, nv, pane, view) && find(final(self).tab_view.split_views_spec(), tab) == Some(nv),
                None => find(final(self).tab_view.split_views_spec(), tab) is None,
            },
            forall|t: TabId| t != tab ==> #[trigger] find(final(self).tab_view.split_views_spec(), t) == find(
                old(self).tab_view.split_views_spec(),
                t,
            ),
            final(self).tab_view.terminal_views_spec() == old(self).tab_view.terminal_views_spec(),
            final(self).tab_view.new_tab_button_spec() == old(self).tab_view.new_tab_button_spec(),
            final(self).tab_view.close_buttons_spec() == old(self).tab_view.close_buttons_spec(),
            final(self).tab_view.height_spec() == old(self).tab_view.height_spec(),
            final(self).tab_manager == old(self).tab_manager,
            final(self).terminal_panes == old(self).terminal_panes,
            final(self).terminal_pane_manager == old(self).terminal_pane_manager,
            final(self).status_bar == old(self).status_bar,
            final(self).theme_manager == old(self).theme_manager,
            final(self).host_list_view == old(self).host_list_view,
            final(self).connection_dialog == old(self).connection_dialog,
            final(self).error_notification == old(self).error_notification,
            final(self).pending_errors == old(self).pending_errors,
            final(self).show_sidebar == old(self).show_sidebar,
            final(self).show_tab_bar == old(self).show_tab_bar,
    {
        let ghost before = self.tab_view.split_views_spec();
        match self.tab_view.take_split_view(tab) {
            Some(sv) => {
                let mut sv = sv;
                assert(find(before, tab) is Some);
                sv.register_terminal_view(pane, view);
                let ghost nv = sv;
                self.tab_view.register_split_view(tab, sv);
                proof {
                    assert(find(self.tab_view.split_views_spec(), tab) == Some(nv));
                    assert(view_registered(find(before, tab)->0, nv, pane, view));
                    assert forall|t: TabId| #[trigger] find(self.tab_view.split_views_spec(), t) is Some implies find(
                        self.tab_view.split_views_spec(),
                        t,
                    )->0.wf() by {
                        if t != tab {
                            assert(find(before, t) is Some);
                        }
                    }
                }
            },
            None => {},
        }
    }

    /// Forgets the terminal view of `pane` in the split view of `tab`, if
    /// the tab has one.
    fn unregister_in_split_view(&mut self, tab: TabId, pane: PaneId)
        requires
            old(self).wf(),
        ensures
            final(self).wf(),
            match find(old(self).tab_view.split_views_spec(), tab) {
                Some(sv) => exists|nv: SplitView<V>|
                    #[trigger] view_unregistered(sv, nv, pane) && find(final(self).tab_view.split_views_spec(), tab) == Some(nv),
                None => find(final(self).tab_view.split_views_spec(), tab) is None,
            },
            forall|t: TabId| t != tab ==> #[trigger] find(final(self).tab_view.split_views_spec(), t) == find(
                old(self).tab_view.split_views_spec(),
                t,
            ),
            final(self).tab_view.terminal_views_spec() == old(self).tab_view.terminal_views_spec(),
            final(self).tab_view.new_tab_button_spec() == old(self).tab_view.new_tab_button_spec(),
            final(self).tab_view.close_buttons_spec() == old(self).tab_view.close_buttons_spec(),
            final(self).tab_view.height_spec() == old(self).tab_view.height_spec(),
            final(self).tab_manager == old(self).tab_manager,
            final(self).terminal_panes == old(self).terminal_panes,
            final(self).terminal_pane_manager == old(self).terminal_pane_manager,
            final(self).status_bar == old(self).status_bar,
            final(self).theme_manager == old(self).theme_manager,
            final(self).host_list_view == old(self).host_list_view,
            final(self).connection_dialog == old(self).connection_dialog,
            final(self).error_notification == old(self).error_notification,
            final(self).pending_errors == old(self).pending_errors,
            final(self).show_sidebar == old(self).show_sidebar,
            final(self).show_tab_bar == old(self).show_tab_bar,
    {
        let ghost before = self.tab_view.split_views_spec();
        match self.tab_view.take_split_view(tab) {
            Some(sv) => {
                let mut sv = sv;
                assert(find(before, tab) is Some);
                sv.unregister_terminal_view(pane);
                let ghost nv = sv;
                self.tab_view.register_split_view(tab, sv);
                proof {
                    assert(find(self.tab_view.split_views_spec(), tab) == Some(nv));
                    assert(view_unregistered(find(before, tab)->0, nv, pane));
                    assert forall|t: TabId| #[trigger] find(self.tab_view.split_views_spec(), t) is Some implies find(
                        self.tab_view.split_views_spec(),
                        t,
                    )->0.wf() by {
                        if t != tab {
                            assert(find(before, t) is Some);
                        }
                    }
                }
            },
            None => {},
        }
    }
}


impl<V, C> MainWindow<V, C> {
    /// Adds a tab for `tab_info` with an empty layout and an empty split
    /// view; the tab's identifier, or `None` when the tab manager refuses.
    pub fn create_tab(&mut self, tab_info: TabInfo) -> (r: Option<TabId>)
        requires
            old(self).wf(),
        ensures
            final(self).wf(),
            tab_created(*old(self), *final(self), tab_info, r),
    {
        let ghost id = tab_info.id;
        let sm = SplitManager::new();
        let ghost g = sm;
        let ghost before = *self;
        match self.tab_manager.add_tab(tab_info, sm) {
            None => None,
            Some(tab_id) => {
                proof {
                    self.tab_manager.lemma_layout_at(before.tab_manager.tabs_spec().len() as int);
                    assert(self.tab_manager.ids_spec()[before.tab_manager.tabs_spec().len() as int] == id);
                }
                let ghost mid = self.tab_view.split_views_spec();
                let sv: SplitView<V> = SplitView::new();
                self.tab_view.register_split_view(tab_id, sv);
                proof {
                    assert forall|t: TabId| #[trigger] find(self.tab_view.split_views_spec(), t) is Some implies find(
                        self.tab_view.split_views_spec(),
                        t,
                    )->0.wf() by {
                        if t != tab_id {
                            assert(find(mid, t) is Some);
                        }
                    }
                }
                Some(tab_id)
            },
        }
    }

    /// Adds a local terminal tab titled `title`.
    pub fn create_local_tab(&mut self, title: &str) -> (r: Option<TabId>)
        requires
            old(self).wf(),
        ensures
            final(self).wf(),
            exists|info: TabInfo| #[trigger] tab_created(*old(self), *final(self), info, r) && local_tab_info(info, title@),
    {
        let info = TabInfo::new_local(title);
        let ghost g = info;
        let r = self.create_tab(info);
        proof {
            assert(tab_created(*old(self), *self, g, r));
        }
        r
    }

    /// Adds a tab for the remote host `host_config`, titled `user@host`.
    pub fn create_ssh_tab(&mut self, host_config: &HostConfig) -> (r: Option<TabId>)
        requires
            old(self).wf(),
        ensures
            final(self).wf(),
            exists|info: TabInfo| #[trigger] tab_created(*old(self), *final(self), info, r) && ssh_tab_info(info, *host_config),
    {
        let info = TabInfo::new_ssh(host_config.clone());
        let ghost g = info;
        let r = self.create_tab(info);
        proof {
            assert(tab_created(*old(self), *self, g, r));
        }
        r
    }

}

impl<V: Clone, C> MainWindow<V, C> {
    /// Adds a terminal pane titled `title` to the tab `tab_id`, with its
    /// session's `coordinator` and its terminal `view`.
    pub fn add_terminal_pane(&mut self, tab_id: TabId, title: &str, coordinator: C, view: V) -> (r: Option<PaneId>)
        requires
            old(self).wf(),
        ensures
            final(self).wf(),
            terminal_pane_added(*old(self), *final(self), tab_id, title@, coordinator, view, r),
    {
        let ghost before = *self;
        let ph = SplitManager::new();
        let ghost gph = ph;
        let mut layout = match self.tab_manager.swap_layout(tab_id, ph) {
            Ok(l) => l,
            Err(_) => {
                return None;
            },
        };
        let ghost old_layout = layout;
        let ghost mid_tm = self.tab_manager;
        let new_pane = Pane::new_terminal(title);
        let ghost np = new_pane;
        let pane_id = new_pane.id;
        let v1 = view.clone();
        let v2 = view.clone();
        let ghost gview = view;
        self.terminal_panes.add_pane(pane_id, TerminalPaneData { terminal_view: v1, coordinator, tab_id });
        self.register_in_split_view(tab_id, pane_id, v2);
        let ghost sv_mid = self.tab_view.split_views_spec();
        self.tab_view.register_terminal_view(tab_id, pane_id, view);
        if !layout.has_panes() {
            layout.set_root(new_pane);
            layout.focus_pane(pane_id);
        } else {
            match layout.focused_pane() {
                Some(f) => {
                    if layout.pane_count() < usize::MAX {
                        let _ = layout.split_horizontal(f);
                    }
                },
                None => {},
            }
        }
        let ghost new_layout = layout;
        let _ = self.tab_manager.swap_layout(tab_id, layout);
        proof {
            TabManager::lemma_replaced_twice(before.tab_manager, mid_tm, self.tab_manager, tab_id, gph, new_layout);
            assert forall|t: TabId| #[trigger] find(self.tab_view.split_views_spec(), t) is Some implies find(
                self.tab_view.split_views_spec(),
                t,
            )->0.wf() by {
                assert(find(sv_mid, t) is Some);
            }
            assert(fresh_terminal(np, title@));
        }
        Some(pane_id)
    }

    /// Adds a terminal pane for `host_config` to the tab `tab_id`, titled
    /// `user@host`; the status bar shows the host's user and address first.
    pub fn add_ssh_terminal_pane(&mut self, tab_id: TabId, host_config: &HostConfig, coordinator: C, view: V) -> (r: Option<PaneId>)
        requires
            old(self).wf(),
        ensures
            final(self).wf(),
            terminal_pane_added(
                with_user_host(*old(self), Some(host_config.username), Some(host_config.host)),
                *final(self),
                tab_id,
                host_config.username@ + "@"@ + host_config.host@,
                coordinator,
                view,
                r,
            ),
    {
        self.update_user_host(Some(host_config.username.clone()), Some(host_config.host.clone()));
        let ghost mid = *self;
        let title = host_config.user_at_host();
        let r = self.add_terminal_pane(tab_id, title.as_str(), coordinator, view);
        r
    }
}

impl<V, C> MainWindow<V, C> {
    /// Shows `username` and `hostname` in the status bar.
    pub fn update_user_host(&mut self, username: Option<String>, hostname: Option<String>)
        requires
            old(self).wf(),
        ensures
            final(self).wf(),
            *final(self) == (MainWindow {
                status_bar: StatusBar {
                    status_info: StatusInfo { username, hostname, ..old(self).status_bar.status_info },
                },
                ..*old(self)
            }),
    {
        self.status_bar.set_user_host(username, hostname);
    }
}


impl<V, C> MainWindow<V, C> {
    /// Closes the terminal pane `pane_id`.
    pub fn close_terminal_pane(&mut self, pane_id: PaneId)
        requires
            old(self).wf(),
        ensures
            final(self).wf(),
            terminal_pane_closed(*old(self), *final(self), pane_id),
    {
        let ghost before = *self;
        match self.terminal_panes.remove_pane(pane_id) {
            Some(pane_data) => {
                let tab_id = pane_data.tab_id;
                self.unregister_in_split_view(tab_id, pane_id);
                let ghost sv_mid = self.tab_view.split_views_spec();
                self.tab_view.unregister_terminal_view(tab_id, pane_id);
                let ghost mid_tm = self.tab_manager;
                let ph = SplitManager::new();
                let ghost gph = ph;
                match self.tab_manager.swap_layout(tab_id, ph) {
                    Ok(layout) => {
                        let mut layout = layout;
                        let _ = layout.close_pane(pane_id);
                        let ghost tm2 = self.tab_manager;
                        let ghost l2 = layout;
                        let _ = self.tab_manager.swap_layout(tab_id, layout);
                        proof {
                            TabManager::lemma_replaced_twice(mid_tm, tm2, self.tab_manager, tab_id, gph, l2);
                        }
                    },
                    Err(_) => {},
                }
                proof {
                    assert forall|t: TabId| #[trigger] find(self.tab_view.split_views_spec(), t) is Some implies find(
                        self.tab_view.split_views_spec(),
                        t,
                    )->0.wf() by {
                        assert(find(sv_mid, t) is Some);
                    }
                }
            },
            None => {},
        }
        let ghost mid = *self;
        match self.tab_manager.active_tab_id() {
            Some(t) => {
                let ids = self.terminal_panes.pane_ids_for_tab(t);
                if ids.len() == 0 {
                    self.status_bar.set_connection_status(ConnectionStatus::Disconnected);
                    self.status_bar.set_user_host(None, None);
                }
            },
            None => {},
        }
    }

    /// Shows, for the tab `tab_id`, the host's user and address and a
    /// connection, or nothing for a local tab.
    pub fn on_tab_switched(&mut self, tab_id: TabId)
        requires
            old(self).wf(),
        ensures
            final(self).wf(),
            switch_status(*old(self), *final(self), tab_id),
    {
        let (username, hostname, status) = match self.tab_manager.get_tab(tab_id) {
            Some(tab_info) => {
                proof {
                    let j = choose|j: int|
                        0 <= j < self.tab_manager.tabs_spec().len() && self.tab_manager.ids_spec()[j] == tab_id
                            && *tab_info == self.tab_manager.tabs_spec()[j].info;
                    self.tab_manager.lemma_info_at(j);
                }
                match &tab_info.host_config {
                    Some(h) => (Some(h.username.clone()), Some(h.host.clone()), ConnectionStatus::Connected),
                    None => (None, None, ConnectionStatus::Disconnected),
                }
            },
            None => {
                return;
            },
        };
        self.status_bar.set_user_host(username, hostname);
        self.status_bar.set_connection_status(status);
    }

    /// The terminal view of `pane_id`, as the registry knows it.
    pub fn get_terminal_view(&self, pane_id: PaneId) -> (r: Option<&V>)
        requires
            self.wf(),
        ensures
            match r {
                Some(v) => find(self.terminal_pane_manager.panes_spec(), pane_id) matches Some(d) && *v
                    == d.terminal_view,
                None => find(self.terminal_pane_manager.panes_spec(), pane_id) is None,
            },
    {
        self.terminal_pane_manager.get_terminal_view(pane_id)
    }

    /// The coordinator of the session in `pane_id`, as the registry knows
    /// it.
    pub fn get_coordinator(&self, pane_id: PaneId) -> (r: Option<&C>)
        requires
            self.wf(),
        ensures
            match r {
                Some(c) => find(self.terminal_pane_manager.panes_spec(), pane_id) matches Some(d) && *c
                    == d.coordinator,
                None => find(self.terminal_pane_manager.panes_spec(), pane_id) is None,
            },
    {
        self.terminal_pane_manager.get_coordinator(pane_id)
    }

    /// Whether the registry holds a terminal pane.
    pub fn is_connected(&self) -> (r: bool)
        ensures
            r == (self.terminal_pane_manager.panes_spec().len() > 0),
    {
        self.terminal_pane_manager.is_connected()
    }

    /// The focused pane of the active tab.
    pub fn active_pane_id(&self) -> (r: Option<PaneId>)
        requires
            self.wf(),
        ensures
            r == match self.tab_manager.active_spec() {
                Some(a) => match self.tab_manager.layout_spec(a) {
                    Some(l) => l.focused_spec(),
                    None => None,
                },
                None => None,
            },
    {
        match self.tab_manager.active_split_manager() {
            Some(sm) => {
                proof {
                    let j = choose|j: int|
                        0 <= j < self.tab_manager.tabs_spec().len() && self.tab_manager.ids_spec()[j]
                            == self.tab_manager.active_spec()->0 && *sm == self.tab_manager.tabs_spec()[j].split_manager;
                    self.tab_manager.lemma_layout_at(j);
                }
                sm.focused_pane()
            },
            None => None,
        }
    }

    /// The coordinator of the focused pane of the active tab, whose
    /// connection state the status bar is brought in line with.
    pub fn active_coordinator(&self) -> (r: Option<&C>)
        requires
            self.wf(),
        ensures
            match r {
                Some(c) => exists|p: PaneId|
                    #[trigger] find(self.terminal_pane_manager.panes_spec(), p) matches Some(d) && *c == d.coordinator
                        && Some(p) == match self.tab_manager.active_spec() {
                        Some(a) => match self.tab_manager.layout_spec(a) {
                            Some(l) => l.focused_spec(),
                            None => None,
                        },
                        None => None,
                    },
                None => match self.tab_manager.active_spec() {
                    Some(a) => match self.tab_manager.layout_spec(a) {
                        Some(l) => match l.focused_spec() {
                            Some(p) => find(self.terminal_pane_manager.panes_spec(), p) is None,
                            None => true,
                        },
                        None => true,
                    },
                    None => true,
                },
            },
    {
        match self.active_pane_id() {
            Some(p) => {
                let r = self.terminal_pane_manager.get_coordinator(p);
                proof {
                    if r is Some {
                        assert(find(self.terminal_pane_manager.panes_spec(), p) is Some);
                    }
                }
                r
            },
            None => None,
        }
    }
}

impl<V, C: Clone> MainWindow<V, C> {
    /// Cleans up after the tab `tab_id` closed; the answer holds the
    /// coordinators whose sessions the caller closes.
    pub fn cleanup_tab(&mut self, tab_id: TabId) -> (r: Vec<C>)
        requires
            old(self).wf(),
        ensures
            final(self).wf(),
            tab_cleaned(*old(self), *final(self), tab_id, r@),
    {
        let coordinators = self.terminal_pane_manager.get_coordinators_for_tab(tab_id);
        let ghost sv0 = self.tab_view.split_views_spec();
        self.tab_view.unregister_split_view(tab_id);
        let _ = self.terminal_pane_manager.cleanup_tab(tab_id);
        let _ = self.terminal_panes.cleanup_tab(tab_id);
        self.tab_view.unregister_all_terminal_views(tab_id);
        proof {
            assert forall|t: TabId| #[trigger] find(self.tab_view.split_views_spec(), t) is Some implies find(
                self.tab_view.split_views_spec(),
                t,
            )->0.wf() by {
                assert(find(sv0, t) is Some);
            }
        }
        if !self.tab_manager.has_tabs() {
            self.status_bar.set_connection_status(ConnectionStatus::Disconnected);
            self.status_bar.set_user_host(None, None);
        }
        coordinators
    }

    /// Reacts to an event of the tab manager: a closed tab is cleaned up
    /// (the answer holds the coordinators to close), a switch updates the
    /// status bar; other events change nothing.
    pub fn on_tab_manager_event(&mut self, event: &TabManagerEvent) -> (r: Vec<C>)
        requires
            old(self).wf(),
        ensures
            final(self).wf(),
            match *event {
                TabManagerEvent::TabClosed(id) => tab_cleaned(*old(self), *final(self), id, r@),
                TabManagerEvent::TabSwitched(id) => r@.len() == 0 && switch_status(*old(self), *final(self), id),
                _ => r@.len() == 0 && *final(self) == *old(self),
            },
    {
        match event {
            TabManagerEvent::TabClosed(id) => self.cleanup_tab(*id),
            TabManagerEvent::TabSwitched(id) => {
                self.on_tab_switched(*id);
                Vec::new()
            },
            _ => Vec::new(),
        }
    }
}


impl<V: Clone, C> MainWindow<V, C> {
    /// Splits the focused pane of the active tab in `direction` with a new
    /// terminal pane, with its session's `coordinator` and its terminal
    /// `view`; the new pane's identifier.
    pub fn split_with_direction(&mut self, direction: SplitDirection, coordinator: C, view: V) -> (r: Option<PaneId>)
        requires
            old(self).wf(),
        ensures
            final(self).wf(),
            pane_split_off(*old(self), *final(self), direction, coordinator, view, r),
    {
        let ghost before = *self;
        let tab_id = match self.tab_manager.active_tab_id() {
            Some(id) => id,
            None => {
                return None;
            },
        };
        let focused = match self.active_pane_id() {
            Some(f) => f,
            None => {
                return None;
            },
        };
        let ph = SplitManager::new();
        let ghost gph = ph;
        let mut layout = match self.tab_manager.swap_layout(tab_id, ph) {
            Ok(l) => l,
            Err(_) => {
                return None;
            },
        };
        let ghost mid_tm = self.tab_manager;
        let new_pane = Pane::new_terminal("Terminal");
        let ghost np = new_pane;
        let pane_id = new_pane.id;
        let v1 = view.clone();
        let v2 = view.clone();
        self.terminal_panes.add_pane(pane_id, TerminalPaneData { terminal_view: v1, coordinator, tab_id });
        self.register_in_split_view(tab_id, pane_id, v2);
        let ghost sv_mid = self.tab_view.split_views_spec();
        self.tab_view.register_terminal_view(tab_id, pane_id, view);
        let ghost old_layout = layout;
        if layout.pane_count() < usize::MAX {
            let res = layout.split_with_pane(focused, new_pane, direction, HALF_RATIO);
            proof {
                assert(SplitManager::split_with_outcome(old_layout, layout, focused, np, direction, HALF_RATIO, res));
            }
        }
        let ghost new_layout = layout;
        let _ = self.tab_manager.swap_layout(tab_id, layout);
        proof {
            TabManager::lemma_replaced_twice(before.tab_manager, mid_tm, self.tab_manager, tab_id, gph, new_layout);
            assert forall|t: TabId| #[trigger] find(self.tab_view.split_views_spec(), t) is Some implies find(
                self.tab_view.split_views_spec(),
                t,
            )->0.wf() by {
                assert(find(sv_mid, t) is Some);
            }
            reveal_strlit("Terminal");
            assert(fresh_terminal(np, "Terminal"@));
            let a = before.tab_manager.active_spec()->0;
            let l = before.tab_manager.layout_spec(a)->0;
            assert(self.tab_manager.layout_spec(a) matches Some(l2) && TabManager::layout_replaced(
                before.tab_manager,
                self.tab_manager,
                a,
                l2,
            ) && if l.count_spec() < usize::MAX {
                exists|x: Option<PaneId>| SplitManager::split_with_outcome(l, l2, focused, np, direction, HALF_RATIO, x)
            } else {
                l2 == l
            });
            assert(split_off_with(before, *self, direction, coordinator, view, Some(pane_id), focused, np));
        }
        Some(pane_id)
    }

    /// Splits the focused pane of the active tab left and right.
    pub fn split_horizontal(&mut self, coordinator: C, view: V) -> (r: Option<PaneId>)
        requires
            old(self).wf(),
        ensures
            final(self).wf(),
            pane_split_off(*old(self), *final(self), SplitDirection::Horizontal, coordinator, view, r),
    {
        self.split_with_direction(SplitDirection::Horizontal, coordinator, view)
    }

    /// Splits the focused pane of the active tab top and bottom.
    pub fn split_vertical(&mut self, coordinator: C, view: V) -> (r: Option<PaneId>)
        requires
            old(self).wf(),
        ensures
            final(self).wf(),
            pane_split_off(*old(self), *final(self), SplitDirection::Vertical, coordinator, view, r),
    {
        self.split_with_direction(SplitDirection::Vertical, coordinator, view)
    }
}

impl<V, C> MainWindow<V, C> {
    /// Closes the focused pane of the active tab.
    pub fn close_focused_pane(&mut self)
        requires
            old(self).wf(),
        ensures
            final(self).wf(),
            match active_focus(*old(self)) {
                Some(p) => terminal_pane_closed(*old(self), *final(self), p),
                None => *final(self) == *old(self),
            },
    {
        match self.active_pane_id() {
            Some(p) => self.close_terminal_pane(p),
            None => {},
        }
    }

    fn move_focus(&mut self, forward: bool)
        requires
            old(self).wf(),
        ensures
            final(self).wf(),
            focus_moved_in_window(*old(self), *final(self), forward),
    {
        let ghost before = *self;
        let tab_id = match self.tab_manager.active_tab_id() {
            Some(id) => id,
            None => {
                return;
            },
        };
        let ph = SplitManager::new();
        let ghost gph = ph;
        match self.tab_manager.swap_layout(tab_id, ph) {
            Ok(layout) => {
                let ghost mid_tm = self.tab_manager;
                let mut layout = layout;
                if forward {
                    layout.focus_next_pane();
                } else {
                    layout.focus_prev_pane();
                }
                let ghost l2 = layout;
                let _ = self.tab_manager.swap_layout(tab_id, layout);
                proof {
                    TabManager::lemma_replaced_twice(before.tab_manager, mid_tm, self.tab_manager, tab_id, gph, l2);
                }
            },
            Err(_) => {},
        }
    }

    /// Moves the focus of the active tab to its next pane.
    pub fn focus_next_pane(&mut self)
        requires
            old(self).wf(),
        ensures
            final(self).wf(),
            focus_moved_in_window(*old(self), *final(self), true),
    {
        self.move_focus(true)
    }

    /// Moves the focus of the active tab to its previous pane.
    pub fn focus_prev_pane(&mut self)
        requires
            old(self).wf(),
        ensures
            final(self).wf(),
            focus_moved_in_window(*old(self), *final(self), false),
    {
        self.move_focus(false)
    }

    /// Closes the tab `tab_id`; whether it existed. Its cleanup follows
    /// its `TabClosed` event.
    pub fn close_tab(&mut self, tab_id: TabId) -> (r: bool)
        requires
            old(self).wf(),
        ensures
            final(self).wf(),
            only_tabs_changed(*old(self), *final(self)),
            r == old(self).tab_manager.ids_spec().contains(tab_id),
            r ==> TabManager::closed_outcome(old(self).tab_manager, final(self).tab_manager, tab_id)
                && final(self).tab_manager.max_spec() == old(self).tab_manager.max_spec(),
            !r ==> *final(self) == *old(self),
    {
        self.tab_manager.close_tab(tab_id)
    }

    /// Closes the active tab; `false` when there is none.
    pub fn close_active_tab(&mut self) -> (r: bool)
        requires
            old(self).wf(),
        ensures
            final(self).wf(),
            only_tabs_changed(*old(self), *final(self)),
            r == old(self).tab_manager.active_spec() is Some,
            r ==> TabManager::closed_outcome(
                old(self).tab_manager,
                final(self).tab_manager,
                old(self).tab_manager.active_spec()->0,
            ) && final(self).tab_manager.max_spec() == old(self).tab_manager.max_spec(),
            !r ==> *final(self) == *old(self),
    {
        match self.tab_manager.active_tab_id() {
            Some(id) => {
                proof {
                    let i = choose|i: int|
                        0 <= i < self.tab_manager.tabs_spec().len() && #[trigger] self.tab_manager.tabs_spec()[i].info.id
                            == id && self.tab_manager.tabs_spec()[i].info.is_active;
                    assert(self.tab_manager.ids_spec()[i] == id);
                }
                self.close_tab(id)
            },
            None => false,
        }
    }

    /// Activates the tab right of the active one.
    pub fn switch_to_next_tab(&mut self) -> (r: bool)
        requires
            old(self).wf(),
        ensures
            final(self).wf(),
            only_tabs_changed(*old(self), *final(self)),
            r == (old(self).tab_manager.tabs_spec().len() > 0),
            r ==> TabManager::stepped(old(self).tab_manager, final(self).tab_manager, true),
            !r ==> *final(self) == *old(self),
    {
        self.tab_manager.switch_to_next_tab()
    }

    /// Activates the tab left of the active one.
    pub fn switch_to_prev_tab(&mut self) -> (r: bool)
        requires
            old(self).wf(),
        ensures
            final(self).wf(),
            only_tabs_changed(*old(self), *final(self)),
            r == (old(self).tab_manager.tabs_spec().len() > 0),
            r ==> TabManager::stepped(old(self).tab_manager, final(self).tab_manager, false),
            !r ==> *final(self) == *old(self),
    {
        self.tab_manager.switch_to_prev_tab()
    }

    /// Activates the tab at `index`.
    pub fn switch_to_tab_at_index(&mut self, index: usize) -> (r: bool)
        requires
            old(self).wf(),
        ensures
            final(self).wf(),
            only_tabs_changed(*old(self), *final(self)),
            r == (index < old(self).tab_manager.tabs_spec().len()),
            r ==> TabManager::switched(
                old(self).tab_manager,
                final(self).tab_manager,
                old(self).tab_manager.ids_spec()[index as int],
            ),
            !r ==> *final(self) == *old(self),
    {
        self.tab_manager.switch_to_tab_at_index(index)
    }

    /// The active tab.
    pub fn active_tab_id(&self) -> (r: Option<TabId>)
        ensures
            r == self.tab_manager.active_spec(),
    {
        self.tab_manager.active_tab_id()
    }

    /// The number of tabs.
    pub fn tab_count(&self) -> (r: usize)
        ensures
            r == self.tab_manager.tabs_spec().len(),
    {
        self.tab_manager.tab_count()
    }

    /// Whether there is a tab.
    pub fn has_tabs(&self) -> (r: bool)
        ensures
            r == (self.tab_manager.tabs_spec().len() > 0),
    {
        self.tab_manager.has_tabs()
    }

    /// Shows `status` in the status bar.
    pub fn update_connection_status(&mut self, status: ConnectionStatus)
        requires
            old(self).wf(),
        ensures
            final(self).wf(),
            *final(self) == (MainWindow {
                status_bar: StatusBar {
                    status_info: StatusInfo { connection_status: status, ..old(self).status_bar.status_info },
                },
                ..*old(self)
            }),
    {
        self.status_bar.set_connection_status(status);
    }

    /// Shows the terminal's size in the status bar.
    pub fn update_terminal_size(&mut self, cols: u16, rows: u16)
        requires
            old(self).wf(),
        ensures
            final(self).wf(),
            *final(self) == (MainWindow {
                status_bar: StatusBar { status_info: StatusInfo { cols, rows, ..old(self).status_bar.status_info } },
                ..*old(self)
            }),
    {
        self.status_bar.set_size(cols, rows);
    }

    /// Shows the round-trip time in the status bar.
    pub fn update_rtt(&mut self, rtt_ms: Option<u32>)
        requires
            old(self).wf(),
        ensures
            final(self).wf(),
            *final(self) == (MainWindow {
                status_bar: StatusBar { status_info: StatusInfo { rtt_ms, ..old(self).status_bar.status_info } },
                ..*old(self)
            }),
    {
        self.status_bar.set_rtt(rtt_ms);
    }

    /// Replaces everything the status bar shows.
    pub fn update_status_info(&mut self, info: StatusInfo)
        requires
            old(self).wf(),
        ensures
            final(self).wf(),
            *final(self) == (MainWindow { status_bar: StatusBar { status_info: info }, ..*old(self) }),
    {
        self.status_bar.update_status(info);
    }

    /// The current theme.
    pub fn current_theme(&self) -> (r: BuiltinTheme)
        ensures
            r == self.theme_manager.config_spec().theme,
    {
        self.theme_manager.current_theme()
    }

    /// The terminal theme that the terminal views take (after every theme
    /// change the owner gives it to each of them).
    pub fn terminal_theme(&self) -> (r: TerminalTheme)
        ensures
            r.name@ == theme_name(self.theme_manager.config_spec().theme),
            r.is_dark == theme_is_dark(self.theme_manager.config_spec().theme),
            match builtin_colors(self.theme_manager.config_spec().theme) {
                Some(cs) => r.colors matches Some(c) && colors_seq(c) == cs,
                None => r.colors is None,
            },
    {
        self.theme_manager.terminal_theme()
    }

    /// Switches to `theme`.
    pub fn set_theme(&mut self, theme: BuiltinTheme)
        requires
            old(self).wf(),
        ensures
            final(self).wf(),
            *final(self) == (MainWindow { theme_manager: final(self).theme_manager, ..*old(self) }),
            final(self).theme_manager.config_spec() == (ThemeConfig { theme, ..old(self).theme_manager.config_spec() }),
    {
        self.theme_manager.set_theme(theme);
    }

    /// Switches to `mode` (`system_is_dark`: what the system reports).
    pub fn set_theme_mode(&mut self, mode: ThemeMode, system_is_dark: bool)
        requires
            old(self).wf(),
        ensures
            final(self).wf(),
            *final(self) == (MainWindow { theme_manager: final(self).theme_manager, ..*old(self) }),
            final(self).theme_manager.config_spec() == (ThemeConfig {
                mode,
                theme: if old(self).theme_manager.config_spec().mode == mode {
                    old(self).theme_manager.config_spec().theme
                } else {
                    theme_for_mode(old(self).theme_manager.config_spec().theme, mode, system_is_dark)
                },
                ..old(self).theme_manager.config_spec()
            }),
    {
        self.theme_manager.set_mode(mode, system_is_dark);
    }

    /// Switches between the dark and the light mode.
    pub fn toggle_theme(&mut self)
        requires
            old(self).wf(),
        ensures
            final(self).wf(),
            *final(self) == (MainWindow { theme_manager: final(self).theme_manager, ..*old(self) }),
            final(self).theme_manager.config_spec() == (ThemeConfig {
                mode: toggled_mode(old(self).theme_manager.config_spec().theme),
                theme: toggled_theme(old(self).theme_manager.config_spec().theme),
                ..old(self).theme_manager.config_spec()
            }),
            final(self).theme_manager.events_spec() == old(self).theme_manager.events_spec() + theme_switch_events(
                old(self).theme_manager.config_spec().theme,
                toggled_theme(old(self).theme_manager.config_spec().theme),
            ) + mode_switch_events(
                old(self).theme_manager.config_spec().mode,
                toggled_mode(old(self).theme_manager.config_spec().theme),
            ),
    {
        self.theme_manager.toggle_dark_light();
    }

    /// Switches to the next theme.
    pub fn next_theme(&mut self)
        requires
            old(self).wf(),
        ensures
            final(self).wf(),
            *final(self) == (MainWindow { theme_manager: final(self).theme_manager, ..*old(self) }),
            final(self).theme_manager.config_spec().theme == next_of(old(self).theme_manager.config_spec().theme),
            final(self).theme_manager.config_spec().mode == old(self).theme_manager.config_spec().mode,
    {
        self.theme_manager.next_theme();
    }

    /// Switches to the previous theme.
    pub fn prev_theme(&mut self)
        requires
            old(self).wf(),
        ensures
            final(self).wf(),
            *final(self) == (MainWindow { theme_manager: final(self).theme_manager, ..*old(self) }),
            final(self).theme_manager.config_spec().theme == prev_of(old(self).theme_manager.config_spec().theme),
            final(self).theme_manager.config_spec().mode == old(self).theme_manager.config_spec().mode,
    {
        self.theme_manager.prev_theme();
    }

    /// Whether the theme is dark.
    pub fn is_dark_mode(&self) -> (r: bool)
        ensures
            r == theme_is_dark(self.theme_manager.config_spec().theme),
    {
        self.theme_manager.is_dark_mode()
    }

    /// Every built-in theme.
    pub fn available_themes(&self) -> (r: Vec<BuiltinTheme>)
        ensures
            r@ == all_themes(),
    {
        self.theme_manager.available_themes()
    }

    /// Shows or hides the side bar.
    pub fn toggle_sidebar(&mut self)
        requires
            old(self).wf(),
        ensures
            final(self).wf(),
            *final(self) == (MainWindow { show_sidebar: !old(self).show_sidebar, ..*old(self) }),
    {
        self.show_sidebar = !self.show_sidebar;
    }

    /// Whether the side bar shows.
    pub fn is_sidebar_visible(&self) -> (r: bool)
        ensures
            r == self.show_sidebar,
    {
        self.show_sidebar
    }

    /// Shows (`true`) or hides the side bar.
    pub fn set_sidebar_visible(&mut self, visible: bool)
        requires
            old(self).wf(),
        ensures
            final(self).wf(),
            *final(self) == (MainWindow { show_sidebar: visible, ..*old(self) }),
    {
        self.show_sidebar = visible;
    }

    /// Shows or hides the tab bar.
    pub fn toggle_tab_bar(&mut self)
        requires
            old(self).wf(),
        ensures
            final(self).wf(),
            *final(self) == (MainWindow { show_tab_bar: !old(self).show_tab_bar, ..*old(self) }),
    {
        self.show_tab_bar = !self.show_tab_bar;
    }

    /// Whether the tab bar shows.
    pub fn is_tab_bar_visible(&self) -> (r: bool)
        ensures
            r == self.show_tab_bar,
    {
        self.show_tab_bar
    }

    /// Shows (`true`) or hides the tab bar.
    pub fn set_tab_bar_visible(&mut self, visible: bool)
        requires
            old(self).wf(),
        ensures
            final(self).wf(),
            *final(self) == (MainWindow { show_tab_bar: visible, ..*old(self) }),
    {
        self.show_tab_bar = visible;
    }

    /// Shows a connection error titled `title` with `message`, offering a
    /// retry and staying until closed; it replaces any shown error.
    pub fn show_connection_error(&mut self, title: String, message: String)
        requires
            old(self).wf(),
        ensures
            final(self).wf(),
            *final(self) == (MainWindow { error_notification: final(self).error_notification, ..*old(self) }),
            final(self).error_notification matches Some(n) && n.title == title && n.message == message
                && n.show_retry && !n.auto_dismiss && n.dismiss_delay_secs == 8 && n.events@.len() == 0,
    {
        let n = ErrorNotification::new().with_title(title).with_message(message).with_retry(true).with_auto_dismiss(
            false,
        );
        self.error_notification = Some(n);
    }

    /// Closes the shown error, if any.
    pub fn close_error_notification(&mut self)
        requires
            old(self).wf(),
        ensures
            final(self).wf(),
            *final(self) == (MainWindow { error_notification: None, ..*old(self) }),
    {
        if self.error_notification.is_some() {
            self.error_notification = None;
        }
    }

    /// Records that connecting to `host` failed with `error`, to be shown.
    pub fn connection_failed(&mut self, host: &str, error: &str)
        requires
            old(self).wf(),
        ensures
            final(self).wf(),
            *final(self) == (MainWindow { pending_errors: final(self).pending_errors, ..*old(self) }),
            final(self).pending_errors@.len() == old(self).pending_errors@.len() + 1,
            final(self).pending_errors@.drop_last() == old(self).pending_errors@,
            final(self).pending_errors@.last()@ == host@ + ": "@ + error@,
    {
        let mut m = owned(host);
        m.append(": ");
        m.append(error);
        let ghost before = self.pending_errors@;
        self.pending_errors.push(m);
        proof {
            assert(self.pending_errors@.drop_last() =~= before);
        }
    }

    /// Shows the recorded connection errors, each titled `连接失败`, one
    /// after the other: the last one stays shown. None stays recorded.
    pub fn show_pending_errors(&mut self)
        requires
            old(self).wf(),
        ensures
            final(self).wf(),
            final(self).pending_errors@.len() == 0,
            old(self).pending_errors@.len() == 0 ==> final(self).error_notification == old(self).error_notification,
            old(self).pending_errors@.len() > 0 ==> (final(self).error_notification matches Some(n) && n.title@
                == "连接失败"@ && n.message == old(self).pending_errors@.last() && n.show_retry && !n.auto_dismiss),
            *final(self) == (MainWindow {
                error_notification: final(self).error_notification,
                pending_errors: final(self).pending_errors,
                ..*old(self)
            }),
    {
        let mut errors: Vec<String> = Vec::new();
        std::mem::swap(&mut errors, &mut self.pending_errors);
        let ghost all = errors@;
        let ghost start = *self;
        let mut i: usize = 0;
        while i < errors.len()
            invariant
                self.wf(),
                0 <= i <= errors@.len(),
                errors@ == all,
                self.pending_errors@.len() == 0,
                *self == (MainWindow { error_notification: self.error_notification, ..start }),
                i == 0 ==> self.error_notification == start.error_notification,
                i > 0 ==> (self.error_notification matches Some(n) && n.title@ == "连接失败"@ && n.message
                    == all[i - 1] && n.show_retry && !n.auto_dismiss),
            decreases errors@.len() - i,
        {
            let e = errors[i].clone();
            self.show_connection_error(owned("连接失败"), e);
            i = i + 1;
        }
    }

    /// Opens the dialog that creates a host.
    pub fn show_new_host_dialog(&mut self)
        requires
            old(self).wf(),
        ensures
            final(self).wf(),
            *final(self) == (MainWindow { connection_dialog: final(self).connection_dialog, ..*old(self) }),
            final(self).connection_dialog matches Some(d) && d.mode == crate::ui::dialogs::host_connection_dialog::DialogMode::Create
                && d.original_config is None,
    {
        self.connection_dialog = Some(HostConnectionDialog::new_create());
    }

    /// Opens the dialog that edits `host`, with its stored password.
    pub fn show_edit_host_dialog(&mut self, host: HostConfig, stored_password: Option<String>)
        requires
            old(self).wf(),
        ensures
            final(self).wf(),
            *final(self) == (MainWindow { connection_dialog: final(self).connection_dialog, ..*old(self) }),
            final(self).connection_dialog matches Some(d) && d.mode == crate::ui::dialogs::host_connection_dialog::DialogMode::Edit
                && d.original_config == Some(host),
    {
        self.connection_dialog = Some(HostConnectionDialog::new_edit(host, stored_password));
    }

    /// Closes the host dialog; whether it was creating a host.
    pub fn close_connection_dialog(&mut self) -> (r: bool)
        requires
            old(self).wf(),
        ensures
            final(self).wf(),
            *final(self) == (MainWindow { connection_dialog: None, ..*old(self) }),
            r == (old(self).connection_dialog matches Some(d) && d.mode
                == crate::ui::dialogs::host_connection_dialog::DialogMode::Create),
    {
        let creating = match &self.connection_dialog {
            Some(d) => match d.mode {
                crate::ui::dialogs::host_connection_dialog::DialogMode::Create => true,
                crate::ui::dialogs::host_connection_dialog::DialogMode::Edit => false,
            },
            None => false,
        };
        self.connection_dialog = None;
        creating
    }
}


impl<V, C> MainWindow<V, C> {
    /// A new tab was asked for in the tab bar: a local tab titled `新终端`
    /// is created and made active.
    pub fn on_new_tab_requested(&mut self) -> (r: Option<TabId>)
        requires
            old(self).wf(),
        ensures
            final(self).wf(),
            exists|info: TabInfo, mid: MainWindow<V, C>| #[trigger] new_tab_steps(*old(self), mid, *final(self), info, r),
    {
        let info = TabInfo::new_local("新终端");
        let ghost ginfo = info;
        let r = self.create_tab(info);
        let ghost mid = *self;
        match r {
            Some(id) => {
                proof {
                    assert(self.tab_manager.ids_spec()[self.tab_manager.tabs_spec().len() - 1] == id);
                }
                let _ = self.tab_manager.switch_to_tab(id);
            },
            None => {},
        }
        proof {
            assert(new_tab_steps(*old(self), mid, *self, ginfo, r));
        }
        r
    }

    /// Reacts to an event of the host list: the host to connect to is
    /// handed back (the caller makes its session and terminal view and
    /// calls `connect_to_host`); a new or edited host opens the host dialog
    /// (`stored_password`: the edited host's stored password); a deletion
    /// changes nothing here.
    pub fn on_host_list_event(&mut self, event: HostListEvent, stored_password: Option<String>) -> (r: Option<HostConfig>)
        requires
            old(self).wf(),
        ensures
            final(self).wf(),
            match event {
                HostListEvent::ConnectRequested(h) => r == Some(h) && *final(self) == *old(self),
                HostListEvent::NewHostRequested => {
                    &&& r is None
                    &&& *final(self) == (MainWindow { connection_dialog: final(self).connection_dialog, ..*old(self) })
                    &&& final(self).connection_dialog matches Some(d)
                    &&& d.mode == crate::ui::dialogs::host_connection_dialog::DialogMode::Create
                },
                HostListEvent::EditHostRequested(h) => {
                    &&& r is None
                    &&& *final(self) == (MainWindow { connection_dialog: final(self).connection_dialog, ..*old(self) })
                    &&& final(self).connection_dialog matches Some(d)
                    &&& d.mode == crate::ui::dialogs::host_connection_dialog::DialogMode::Edit
                    &&& d.original_config == Some(h)
                },
                HostListEvent::HostDeleted(_) => r is None && *final(self) == *old(self),
            },
    {
        match event {
            HostListEvent::ConnectRequested(h) => Some(h),
            HostListEvent::NewHostRequested => {
                self.show_new_host_dialog();
                None
            },
            HostListEvent::EditHostRequested(h) => {
                self.show_edit_host_dialog(h, stored_password);
                None
            },
            HostListEvent::HostDeleted(_) => None,
        }
    }
}

impl<V: Clone, C> MainWindow<V, C> {
    /// Connects to `host`: a tab and a terminal pane for it (with the
    /// session's `coordinator` and the terminal `view` the caller made),
    /// then the tab becomes active and the status bar shows a connection
    /// under way. The caller then connects the session.
    pub fn connect_to_host(&mut self, host: HostConfig, coordinator: C, view: V) -> (r: Option<(TabId, PaneId)>)
        requires
            old(self).wf(),
        ensures
            final(self).wf(),
            exists|info: TabInfo, m1: MainWindow<V, C>, m2: MainWindow<V, C>|
                #[trigger] connect_steps(*old(self), m1, m2, *final(self), info, host, coordinator, view, r),
    {
        let info = TabInfo::new_ssh(host.clone());
        let ghost ginfo = info;
        let t = self.create_tab(info);
        let ghost m1 = *self;
        let tab_id = match t {
            Some(id) => id,
            None => {
                proof {
                    assert(tab_created(*old(self), m1, ginfo, t));
                    assert(connect_steps(*old(self), m1, m1, *self, ginfo, host, coordinator, view, None));
                }
                return None;
            },
        };
        let p = self.add_ssh_terminal_pane(tab_id, &host, coordinator, view);
        let ghost m2 = *self;
        let pane_id = match p {
            Some(id) => id,
            None => {
                proof {
                    assert(tab_created(*old(self), m1, ginfo, t));
                    assert(terminal_pane_added(
                        with_user_host(m1, Some(host.username), Some(host.host)),
                        m2,
                        tab_id,
                        host.username@ + "@"@ + host.host@,
                        coordinator,
                        view,
                        p,
                    ));
                    assert(connect_steps(*old(self), m1, m2, *self, ginfo, host, coordinator, view, None));
                }
                return None;
            },
        };
        let _ = begin_connect(&host, tab_id, &mut self.tab_manager, &mut self.status_bar);
        proof {
            assert(tab_created(*old(self), m1, ginfo, t));
            assert(terminal_pane_added(
                with_user_host(m1, Some(host.username), Some(host.host)),
                m2,
                tab_id,
                host.username@ + "@"@ + host.host@,
                coordinator,
                view,
                p,
            ));
            assert(connect_steps(*old(self), m1, m2, *self, ginfo, host, coordinator, view, Some((tab_id, pane_id))));
        }
        Some((tab_id, pane_id))
    }
}

} // verus!
