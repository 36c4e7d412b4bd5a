//! Tabs: each tab owns its own split-pane layout; the manager keeps them
//! in display order and tracks the active one.

use vstd::prelude::*;
use vstd::string::*;

use crate::entities::{clone_opt_string, HostConfig, SessionId};
use crate::ids::random_u128;
use crate::text::owned;
use crate::ui::split_pane::SplitManager;

verus! {

/// Identifier of a tab.
#[derive(Debug, Clone, Copy, PartialEq, Eq, Structural, Hash)]
pub struct TabId {
    pub value: u128,
}

impl TabId {
    /// A fresh random identifier.
    pub fn new() -> (r: TabId) {
        TabId { value: random_u128() }
    }
}

/// What a tab shows in the tab bar.
#[derive(Debug)]
pub struct TabInfo {
    /// The tab's identifier.
    pub id: TabId,
    /// Title.
    pub title: String,
    /// The host, for SSH tabs.
    pub host_config: Option<HostConfig>,
    /// The session, once connected.
    pub session_id: Option<SessionId>,
    /// Whether the tab is the active one.
    pub is_active: bool,
    /// Whether the tab shows the unsaved marker.
    pub is_modified: bool,
    /// Optional icon.
    pub icon: Option<String>,
}

impl TabInfo {
    /// A new inactive tab with a fresh id.
    pub fn new(title: &str) -> (r: TabInfo)
        ensures
            r.title@ == title@,
            r.host_config is None,
            r.session_id is None,
            !r.is_active,
            !r.is_modified,
            r.icon is None,
    {
        TabInfo {
            id: TabId::new(),
            title: owned(title),
            host_config: None,
            session_id: None,
            is_active: false,
            is_modified: false,
            icon: None,
        }
    }

    /// A new tab for a remote host, titled `user@host`.
    pub fn new_ssh(host_config: HostConfig) -> (r: TabInfo)
        ensures
            r.title@ == host_config.username@ + "@"@ + host_config.host@,
            r.host_config == Some(host_config),
            r.session_id is None,
            !r.is_active,
            !r.is_modified,
            r.icon is Some && r.icon->0@ == "🖥"@,
    {
        let title = host_config.user_at_host();
        TabInfo {
            id: TabId::new(),
            title,
            host_config: Some(host_config),
            session_id: None,
            is_active: false,
            is_modified: false,
            icon: Some(owned("🖥")),
        }
    }

    /// A new tab for a local terminal.
    pub fn new_local(title: &str) -> (r: TabInfo)
        ensures
            r.title@ == title@,
            r.host_config is None,
            r.session_id is None,
            !r.is_active,
            !r.is_modified,
            r.icon is Some && r.icon->0@ == "💻"@,
    {
        TabInfo {
            id: TabId::new(),
            title: owned(title),
            host_config: None,
            session_id: None,
            is_active: false,
            is_modified: false,
            icon: Some(owned("💻")),
        }
    }

    /// The tab with a session.
    pub fn with_session(self, session_id: SessionId) -> (r: TabInfo)
        ensures
            r == (TabInfo { session_id: Some(session_id), ..self }),
    {
        TabInfo { session_id: Some(session_id), ..self }
    }

    /// The tab with an icon.
    pub fn with_icon(self, icon: &str) -> (r: TabInfo)
        ensures
            r.icon is Some && r.icon->0@ == icon@,
            r.id == self.id && r.title == self.title && r.host_config == self.host_config
                && r.session_id == self.session_id && r.is_active == self.is_active
                && r.is_modified == self.is_modified,
    {
        TabInfo { icon: Some(owned(icon)), ..self }
    }

    /// Marks the tab active or not.
    pub fn set_active(&mut self, active: bool)
        ensures
            *final(self) == (TabInfo { is_active: active, ..*old(self) }),
    {
        self.is_active = active;
    }

    /// Marks the tab modified or not.
    pub fn set_modified(&mut self, modified: bool)
        ensures
            *final(self) == (TabInfo { is_modified: modified, ..*old(self) }),
    {
        self.is_modified = modified;
    }
}

impl Clone for TabInfo {
    fn clone(&self) -> (r: Self)
        ensures
            r == *self,
    {
        TabInfo {
            id: self.id,
            title: self.title.clone(),
            host_config: match &self.host_config {
                Some(h) => Some(h.clone()),
                None => None,
            },
            session_id: self.session_id,
            is_active: self.is_active,
            is_modified: self.is_modified,
            icon: clone_opt_string(&self.icon),
        }
    }
}

/// A tab: what the tab bar shows and the tab's own layout.
pub struct TabData {
    /// What the tab bar shows.
    pub info: TabInfo,
    /// The tab's split-pane layout.
    pub split_manager: SplitManager,
}

impl TabData {
    /// A tab from its parts.
    pub fn new(info: TabInfo, split_manager: SplitManager) -> (r: TabData)
        ensures
            r.info == info,
            r.split_manager == split_manager,
    {
        TabData { info, split_manager }
    }
}

/// What the tab manager reports to the views.
#[derive(Debug)]
pub enum TabManagerEvent {
    /// A tab was added.
    TabAdded(TabId, TabInfo),
    /// A tab was closed.
    TabClosed(TabId),
    /// A tab became the active one.
    TabSwitched(TabId),
    /// A tab's title or marker changed.
    TabUpdated(TabId),
    /// A tab moved to an index.
    TabMoved(TabId, usize),
}

/// The identifiers of a sequence of tabs.
pub open spec fn ids_of(s: Seq<TabData>) -> Seq<TabId> {
    s.map_values(|t: TabData| t.info.id)
}

/// No identifier occurs twice.
pub open spec fn distinct_ids(s: Seq<TabId>) -> bool {
    forall|i: int, j: int| 0 <= i < s.len() && 0 <= j < s.len() && i != j ==> s[i] != s[j]
}

/// The tab that becomes active when the tab at `idx` of `ids` closes: its
/// right neighbour, else its left one, else none.
pub open spec fn adjacent_after_close(ids: Seq<TabId>, idx: int) -> Option<TabId> {
    if idx + 1 < ids.len() {
        Some(ids[idx + 1])
    } else if idx > 0 {
        Some(ids[idx - 1])
    } else {
        None
    }
}

/// The tabs with the tab at index `j` marked active (or not).
pub open spec fn mark_at(s: Seq<TabData>, j: int, active: bool) -> Seq<TabData> {
    s.update(j, TabData { info: TabInfo { is_active: active, ..s[j].info }, ..s[j] })
}

proof fn lemma_prefix_trans(a: Seq<TabManagerEvent>, b: Seq<TabManagerEvent>, c: Seq<TabManagerEvent>)
    requires
        a.is_prefix_of(b),
        b.is_prefix_of(c),
    ensures
        a.is_prefix_of(c),
{
    assert forall|i: int| 0 <= i < a.len() implies a[i] == c[i] by {
        assert(b.subrange(0, a.len() as int)[i] == a[i]);
        assert(c.subrange(0, b.len() as int)[i] == b[i]);
    }
    assert(c.subrange(0, a.len() as int) =~= a);
}


/// Marking a tab active or not keeps the identifiers and their order.
pub proof fn lemma_mark_keeps_ids(s: Seq<TabData>, j: int, active: bool)
    requires
        0 <= j < s.len(),
    ensures
        ids_of(mark_at(s, j, active)) == ids_of(s),
{
    assert(ids_of(mark_at(s, j, active)) =~= ids_of(s));
}

/// Switching to the next tab and then to the previous one makes the tab
/// that was active active again.
pub proof fn law_next_then_prev_restores_active(
    a: TabManager,
    b: TabManager,
    c: TabManager,
    i: int,
    j: int,
)
    requires
        a.wf(),
        b.wf(),
        0 <= i < a.tabs_spec().len(),
        a.ids_spec()[i] == a.active_spec()->0,
        TabManager::switched(a, b, a.ids_spec()[(i + 1) % (a.tabs_spec().len() as int)]),
        0 <= j < b.tabs_spec().len(),
        b.ids_spec()[j] == b.active_spec()->0,
        TabManager::switched(
            b,
            c,
            b.ids_spec()[if j == 0 {
                b.tabs_spec().len() - 1
            } else {
                j - 1
            }],
        ),
    ensures
        c.active_spec() == a.active_spec(),
        c.ids_spec() == a.ids_spec(),
{
    let n = a.tabs_spec().len() as int;
    let nx = (i + 1) % n;
    if i + 1 < n {
        vstd::arithmetic::div_mod::lemma_small_mod((i + 1) as nat, n as nat);
    } else {
        vstd::arithmetic::div_mod::lemma_mod_self_0(n);
    }
    if a.active_spec() == Some(a.ids_spec()[nx]) {
        assert(b == a);
    } else {
        let (ia, jj) = choose|ia: int, jj: int|
            0 <= ia < a.tabs_spec().len() && 0 <= jj < a.tabs_spec().len() && a.ids_spec()[ia]
                == a.active_spec()->0 && a.ids_spec()[jj] == a.ids_spec()[nx] && {
                &&& b.tabs_spec() == mark_at(mark_at(a.tabs_spec(), ia, false), jj, true)
                &&& b.active_spec() == Some(a.ids_spec()[nx])
                &&& b.max_spec() == a.max_spec()
                &&& b.events_spec() == a.events_spec().push(TabManagerEvent::TabSwitched(a.ids_spec()[nx]))
            };
        lemma_mark_keeps_ids(a.tabs_spec(), ia, false);
        lemma_mark_keeps_ids(mark_at(a.tabs_spec(), ia, false), jj, true);
    }
    assert(b.ids_spec() == a.ids_spec());
    assert(b.active_spec() == Some(a.ids_spec()[nx]));
    assert(j == nx);
    let pv = if j == 0 { n - 1 } else { j - 1 };
    assert(pv == i);
    if b.active_spec() == Some(b.ids_spec()[pv]) {
        assert(c == b);
    } else {
        let (ia, jj) = choose|ia: int, jj: int|
            0 <= ia < b.tabs_spec().len() && 0 <= jj < b.tabs_spec().len() && b.ids_spec()[ia]
                == b.active_spec()->0 && b.ids_spec()[jj] == b.ids_spec()[pv] && {
                &&& c.tabs_spec() == mark_at(mark_at(b.tabs_spec(), ia, false), jj, true)
                &&& c.active_spec() == Some(b.ids_spec()[pv])
                &&& c.max_spec() == b.max_spec()
                &&& c.events_spec() == b.events_spec().push(TabManagerEvent::TabSwitched(b.ids_spec()[pv]))
            };
        lemma_mark_keeps_ids(b.tabs_spec(), ia, false);
        lemma_mark_keeps_ids(mark_at(b.tabs_spec(), ia, false), jj, true);
    }
}

/// Adding a tab and closing it again gives back the tab order as it was.
pub proof fn law_add_then_close_restores_order(a: TabManager, b: TabManager, c: TabManager, added: TabData)
    requires
        a.wf(),
        b.tabs_spec() == a.tabs_spec().push(added),
        !a.ids_spec().contains(added.info.id),
        exists|idx: int|
            0 <= idx < b.tabs_spec().len() && b.ids_spec()[idx] == added.info.id && {
                let rest = b.tabs_spec().remove(idx);
                ||| c.tabs_spec() == rest
                ||| exists|j: int| 0 <= j < rest.len() && c.tabs_spec() == #[trigger] mark_at(rest, j, true)
            },
    ensures
        c.ids_spec() == a.ids_spec(),
{
    let idx = choose|idx: int|
        0 <= idx < b.tabs_spec().len() && b.ids_spec()[idx] == added.info.id && {
            let rest = b.tabs_spec().remove(idx);
            ||| c.tabs_spec() == rest
            ||| exists|j: int| 0 <= j < rest.len() && c.tabs_spec() == #[trigger] mark_at(rest, j, true)
        };
    if idx < a.tabs_spec().len() {
        assert(a.ids_spec()[idx] == added.info.id);
        assert(a.ids_spec().contains(added.info.id));
    }
    let rest = b.tabs_spec().remove(idx);
    assert(rest =~= a.tabs_spec());
    if c.tabs_spec() != rest {
        let j = choose|j: int| 0 <= j < rest.len() && c.tabs_spec() == #[trigger] mark_at(rest, j, true);
        lemma_mark_keeps_ids(rest, j, true);
    }
}

/// Where the tab at index `k` was before the tab at `cur` moved to `ni`.
pub open spec fn moved_src(k: int, cur: int, ni: int) -> int {
    if k == ni {
        cur
    } else if cur < ni {
        if k < cur || k > ni { k } else { k + 1 }
    } else {
        if k < ni || k > cur { k } else { k - 1 }
    }
}

/// The tab manager.
pub struct TabManager {
    tabs: Vec<TabData>,
    active_tab_id: Option<TabId>,
    max_tabs: usize,
    events: Vec<TabManagerEvent>,
}

impl TabManager {
    /// The tabs in display order.
    pub closed spec fn tabs_spec(&self) -> Seq<TabData> {
        self.tabs@
    }

    /// The identifiers of the tabs in display order.
    pub open spec fn ids_spec(&self) -> Seq<TabId> {
        ids_of(self.tabs_spec())
    }

    /// The active tab.
    pub closed spec fn active_spec(&self) -> Option<TabId> {
        self.active_tab_id
    }

    /// The largest number of tabs (0: no limit).
    pub closed spec fn max_spec(&self) -> nat {
        self.max_tabs as nat
    }

    /// The events not yet taken.
    pub closed spec fn events_spec(&self) -> Seq<TabManagerEvent> {
        self.events@
    }

    /// Well-formedness: identifiers are distinct; there is an active tab
    /// exactly when there are tabs; the active tab is one of them and
    /// carries the active mark.
    pub open spec fn wf(&self) -> bool {
        &&& distinct_ids(self.ids_spec())
        &&& (self.active_spec() is None <==> self.tabs_spec().len() == 0)
        &&& self.active_spec() is Some ==> exists|i: int|
            0 <= i < self.tabs_spec().len() && #[trigger] self.tabs_spec()[i].info.id
                == self.active_spec()->0 && self.tabs_spec()[i].info.is_active
    }

    /// A manager with no tabs and no limit.
    pub fn new() -> (r: TabManager)
        ensures
            r.wf(),
            r.tabs_spec().len() == 0,
            r.active_spec() is None,
            r.max_spec() == 0,
            r.events_spec().len() == 0,
    {
        TabManager { tabs: Vec::new(), active_tab_id: None, max_tabs: 0, events: Vec::new() }
    }

    /// A manager with no tabs that holds at most `max_tabs` (0: no limit).
    pub fn with_max_tabs(max_tabs: usize) -> (r: TabManager)
        ensures
            r.wf(),
            r.tabs_spec().len() == 0,
            r.active_spec() is None,
            r.max_spec() == max_tabs,
            r.events_spec().len() == 0,
    {
        TabManager { tabs: Vec::new(), active_tab_id: None, max_tabs, events: Vec::new() }
    }

    /// The limit on the number of tabs (0: no limit).
    pub fn max_tabs(&self) -> (r: usize)
        ensures
            r == self.max_spec(),
    {
        self.max_tabs
    }

    fn position(&self, id: TabId) -> (r: Option<usize>)
        requires
            self.wf(),
        ensures
            match r {
                Some(i) => i < self.tabs_spec().len() && self.ids_spec()[i as int] == id,
                None => !self.ids_spec().contains(id),
            },
    {
        let mut i: usize = 0;
        while i < self.tabs.len()
            invariant
                0 <= i <= self.tabs.len(),
                forall|j: int| 0 <= j < i ==> self.ids_spec()[j] != id,
            decreases self.tabs.len() - i,
        {
            if self.tabs[i].info.id == id {
                return Some(i);
            }
            i = i + 1;
        }
        None
    }

    /// Whether adding a tab with identifier `id` is refused: the limit is
    /// reached, or a tab with that identifier exists.
    pub open spec fn add_refused(old: TabManager, id: TabId) -> bool {
        (old.max_spec() > 0 && old.tabs_spec().len() >= old.max_spec()) || old.ids_spec().contains(id)
    }

    /// The effect of adding the tab `tab_info` with the layout
    /// `split_manager`: it comes last, and the first tab becomes active.
    pub open spec fn added_outcome(old: TabManager, new: TabManager, tab_info: TabInfo, split_manager: SplitManager) -> bool {
        let first = old.tabs_spec().len() == 0;
        let info = TabInfo { is_active: first || tab_info.is_active, ..tab_info };
        &&& new.tabs_spec() == old.tabs_spec().push(TabData { info, split_manager })
        &&& new.active_spec() == (if first {
            Some(tab_info.id)
        } else {
            old.active_spec()
        })
        &&& new.max_spec() == old.max_spec()
        &&& new.events_spec() == old.events_spec().push(TabManagerEvent::TabAdded(tab_info.id, info))
    }

    /// Adds a tab at the end, with its layout. Refused (`None`, nothing
    /// changes) when the limit is reached or a tab with the same id exists.
    /// The first tab becomes active.
    pub fn add_tab(&mut self, tab_info: TabInfo, split_manager: SplitManager) -> (r: Option<TabId>)
        requires
            old(self).wf(),
        ensures
            final(self).wf(),
            final(self).max_spec() == old(self).max_spec(),
            Self::add_refused(*old(self), tab_info.id) ==> r is None && *final(self) == *old(self),
            !Self::add_refused(*old(self), tab_info.id) ==> r == Some(tab_info.id) && Self::added_outcome(
                *old(self),
                *final(self),
                tab_info,
                split_manager,
            ),
    {
        if self.max_tabs > 0 && self.tabs.len() >= self.max_tabs {
            return None;
        }
        if self.position(tab_info.id).is_some() {
            return None;
        }
        let mut tab_info = tab_info;
        let tab_id = tab_info.id;
        if self.tabs.len() == 0 {
            tab_info.is_active = true;
            self.active_tab_id = Some(tab_id);
        }
        let event_info = tab_info.clone();
        let ghost old_tabs = self.tabs@;
        self.tabs.push(TabData { info: tab_info, split_manager });
        self.events.push(TabManagerEvent::TabAdded(tab_id, event_info));
        proof {
            assert(ids_of(self.tabs@) =~= ids_of(old_tabs).push(tab_id));
            if self.active_tab_id is Some {
                if old_tabs.len() == 0 {
                    assert(self.tabs@[0].info.id == tab_id);
                } else {
                    let i = choose|i: int|
                        0 <= i < old_tabs.len() && #[trigger] old_tabs[i].info.id
                            == self.active_tab_id->0 && old_tabs[i].info.is_active;
                    assert(self.tabs@[i] == old_tabs[i]);
                }
            }
        }
        Some(tab_id)
    }

    /// The effect of closing the existing tab `id`: it leaves; when it was
    /// active its right neighbour (else its left one) takes the mark and a
    /// switch is reported; the close is reported.
    pub open spec fn closed_outcome(old: TabManager, new: TabManager, id: TabId) -> bool {
        exists|idx: int|
            0 <= idx < old.tabs_spec().len() && old.ids_spec()[idx] == id && {
                let rest = old.tabs_spec().remove(idx);
                if old.active_spec() == Some(id) {
                    let next = adjacent_after_close(old.ids_spec(), idx);
                    &&& new.active_spec() == next
                    &&& match next {
                        Some(n) => {
                            let j = if idx + 1 < old.tabs_spec().len() {
                                idx
                            } else {
                                idx - 1
                            };
                            &&& new.tabs_spec() == mark_at(rest, j, true)
                            &&& new.events_spec() == old.events_spec().push(
                                TabManagerEvent::TabSwitched(n),
                            ).push(TabManagerEvent::TabClosed(id))
                        },
                        None => {
                            &&& new.tabs_spec() == rest
                            &&& new.events_spec() == old.events_spec().push(
                                TabManagerEvent::TabClosed(id),
                            )
                        },
                    }
                } else {
                    &&& new.active_spec() == old.active_spec()
                    &&& new.tabs_spec() == rest
                    &&& new.events_spec() == old.events_spec().push(
                        TabManagerEvent::TabClosed(id),
                    )
                }
            }
    }

    /// Closes the tab `id`. When it was the active tab, its right
    /// neighbour (else its left one) becomes active. Returns whether the tab
    /// existed.
    pub fn close_tab(&mut self, id: TabId) -> (r: bool)
        requires
            old(self).wf(),
        ensures
            final(self).wf(),
            final(self).max_spec() == old(self).max_spec(),
            r == old(self).ids_spec().contains(id),
            !r ==> *final(self) == *old(self),
            r ==> Self::closed_outcome(*old(self), *final(self), id),
    {
        let idx = match self.position(id) {
            Some(i) => i,
            None => return false,
        };
        let ghost old_self = *self;
        let ghost old_ids = self.ids_spec();
        let old_len = self.tabs.len();
        let _removed = self.tabs.remove(idx);
        proof {
            assert(ids_of(self.tabs@) =~= old_ids.remove(idx as int));
        }
        if self.active_tab_id == Some(id) {
            if idx + 1 < old_len {
                let n = self.tabs[idx].info.id;
                self.tabs[idx].info.is_active = true;
                self.active_tab_id = Some(n);
                self.events.push(TabManagerEvent::TabSwitched(n));
                proof {
                    assert(n == old_ids[idx + 1]);
                    assert(ids_of(self.tabs@) =~= old_ids.remove(idx as int));
                }
            } else if idx > 0 {
                let j = idx - 1;
                let n = self.tabs[j].info.id;
                self.tabs[j].info.is_active = true;
                self.active_tab_id = Some(n);
                self.events.push(TabManagerEvent::TabSwitched(n));
                proof {
                    assert(n == old_ids[idx - 1]);
                    assert(ids_of(self.tabs@) =~= old_ids.remove(idx as int));
                }
            } else {
                self.active_tab_id = None;
            }
        } else {
            proof {
                let a = old_self.active_spec()->0;
                let i = choose|i: int|
                    0 <= i < old_self.tabs_spec().len() && #[trigger] old_self.tabs_spec()[i].info.id
                        == a && old_self.tabs_spec()[i].info.is_active;
                if i < idx {
                    assert(self.tabs@[i] == old_self.tabs_spec()[i]);
                } else {
                    assert(i != idx);
                    assert(self.tabs@[i - 1] == old_self.tabs_spec()[i]);
                }
            }
        }
        self.events.push(TabManagerEvent::TabClosed(id));
        proof {
            let ids = self.ids_spec();
            assert forall|i: int, j: int|
                0 <= i < ids.len() && 0 <= j < ids.len() && i != j implies ids[i] != ids[j] by {
                let oi = if i < idx { i } else { i + 1 };
                let oj = if j < idx { j } else { j + 1 };
                assert(ids[i] == old_ids[oi]);
                assert(ids[j] == old_ids[oj]);
            }
            if self.active_tab_id is Some && old_self.active_spec() == Some(id) {
                let k = if idx + 1 < old_len { idx as int } else { idx - 1 };
                assert(self.tabs@[k].info.id == self.active_tab_id->0);
            }
        }
        true
    }

    /// Closes every tab, left to right.
    pub fn close_all_tabs(&mut self)
        requires
            old(self).wf(),
        ensures
            final(self).wf(),
            final(self).tabs_spec().len() == 0,
            final(self).active_spec() is None,
            final(self).max_spec() == old(self).max_spec(),
            old(self).events_spec().is_prefix_of(final(self).events_spec()),
    {
        let ids = self.snapshot_ids();
        self.close_each(&ids, None);
        proof {
            if self.tabs_spec().len() > 0 {
                let x = self.ids_spec()[0];
                assert(self.ids_spec().contains(x));
            }
        }
    }

    /// Closes every tab but `keep`.
    pub fn close_other_tabs(&mut self, keep: TabId)
        requires
            old(self).wf(),
        ensures
            final(self).wf(),
            final(self).ids_spec() == (if old(self).ids_spec().contains(keep) {
                seq![keep]
            } else {
                Seq::<TabId>::empty()
            }),
            final(self).max_spec() == old(self).max_spec(),
            old(self).events_spec().is_prefix_of(final(self).events_spec()),
    {
        let ids = self.snapshot_ids();
        self.close_each(&ids, Some(keep));
        proof {
            let f = self.ids_spec();
            let o = old(self).ids_spec();
            if o.contains(keep) {
                assert(f.contains(keep));
                assert(f.len() == 1) by {
                    if f.len() > 1 {
                        let other = if f[0] == keep { f[1] } else { f[0] };
                        assert(f.contains(other));
                    }
                }
                assert(f =~= seq![keep]);
            } else {
                if f.len() > 0 {
                    assert(f.contains(f[0]));
                }
                assert(f =~= Seq::<TabId>::empty());
            }
        }
    }

    /// Closes every tab right of the tab `id`.
    pub fn close_tabs_to_right(&mut self, id: TabId)
        requires
            old(self).wf(),
        ensures
            final(self).wf(),
            final(self).max_spec() == old(self).max_spec(),
            old(self).events_spec().is_prefix_of(final(self).events_spec()),
            forall|x: TabId|
                #[trigger] final(self).ids_spec().contains(x) <==> (old(self).ids_spec().contains(x)
                    && !(exists|i: int, k: int|
                    0 <= i < k < old(self).ids_spec().len() && old(self).ids_spec()[i] == id
                        && old(self).ids_spec()[k] == x)),
    {
        let ghost o = self.ids_spec();
        match self.position(id) {
            None => {
                proof {
                    assert forall|x: TabId| #[trigger] self.ids_spec().contains(x) <==> (o.contains(x) && !(exists|i: int, k: int| 0 <= i < k < o.len() && o[i] == id && o[k] == x)) by {
                        if exists|i: int, k: int| 0 <= i < k < o.len() && o[i] == id && o[k] == x {
                            let (i, k) = choose|i: int, k: int| 0 <= i < k < o.len() && o[i] == id && o[k] == x;
                            assert(o.contains(id));
                        }
                    }
                }
            },
            Some(index) => {
                let mut ids: Vec<TabId> = Vec::new();
                let len = self.tabs.len();
                assert(index < len);
                let mut k = index + 1;
                while k < self.tabs.len()
                    invariant
                        self.wf(),
                        self.ids_spec() == o,
                        index < k <= o.len(),
                        ids@ == o.subrange(index + 1, k as int),
                    decreases o.len() - k,
                {
                    ids.push(self.tabs[k].info.id);
                    k = k + 1;
                    proof {
                        assert(ids@ =~= o.subrange(index + 1, k as int));
                    }
                }
                self.close_each(&ids, None);
                proof {
                    assert forall|x: TabId| #[trigger] self.ids_spec().contains(x) <==> (o.contains(x) && !(exists|i: int, k: int| 0 <= i < k < o.len() && o[i] == id && o[k] == x)) by {
                        if exists|i: int, k: int| 0 <= i < k < o.len() && o[i] == id && o[k] == x {
                            let (i, k) = choose|i: int, k: int| 0 <= i < k < o.len() && o[i] == id && o[k] == x;
                            assert(i == index);
                            assert(ids@[k - index - 1] == x);
                            assert(ids@.contains(x));
                        }
                        if o.contains(x) && !ids@.contains(x) {
                            let k = choose|k: int| 0 <= k < o.len() && o[k] == x;
                            if k > index {
                                assert(ids@[k - index - 1] == x);
                            }
                        }
                        if ids@.contains(x) {
                            let m = choose|m: int| 0 <= m < ids@.len() && ids@[m] == x;
                            assert(o[index + 1 + m] == x);
                        }
                    }
                }
            },
        }
    }

    /// Closes every tab left of the tab `id`.
    pub fn close_tabs_to_left(&mut self, id: TabId)
        requires
            old(self).wf(),
        ensures
            final(self).wf(),
            final(self).max_spec() == old(self).max_spec(),
            old(self).events_spec().is_prefix_of(final(self).events_spec()),
            forall|x: TabId|
                #[trigger] final(self).ids_spec().contains(x) <==> (old(self).ids_spec().contains(x)
                    && !(exists|i: int, k: int|
                    0 <= k < i < old(self).ids_spec().len() && old(self).ids_spec()[i] == id
                        && old(self).ids_spec()[k] == x)),
    {
        let ghost o = self.ids_spec();
        match self.position(id) {
            None => {
                proof {
                    assert forall|x: TabId| #[trigger] self.ids_spec().contains(x) <==> (o.contains(x) && !(exists|i: int, k: int| 0 <= k < i < o.len() && o[i] == id && o[k] == x)) by {
                        if exists|i: int, k: int| 0 <= k < i < o.len() && o[i] == id && o[k] == x {
                            let (i, k) = choose|i: int, k: int| 0 <= k < i < o.len() && o[i] == id && o[k] == x;
                            assert(o.contains(id));
                        }
                    }
                }
            },
            Some(index) => {
                let mut ids: Vec<TabId> = Vec::new();
                let mut k: usize = 0;
                while k < index
                    invariant
                        self.wf(),
                        self.ids_spec() == o,
                        index < o.len(),
                        0 <= k <= index,
                        ids@ == o.subrange(0, k as int),
                    decreases index - k,
                {
                    ids.push(self.tabs[k].info.id);
                    k = k + 1;
                    proof {
                        assert(ids@ =~= o.subrange(0, k as int));
                    }
                }
                self.close_each(&ids, None);
                proof {
                    assert forall|x: TabId| #[trigger] self.ids_spec().contains(x) <==> (o.contains(x) && !(exists|i: int, k: int| 0 <= k < i < o.len() && o[i] == id && o[k] == x)) by {
                        if exists|i: int, k: int| 0 <= k < i < o.len() && o[i] == id && o[k] == x {
                            let (i, k) = choose|i: int, k: int| 0 <= k < i < o.len() && o[i] == id && o[k] == x;
                            assert(i == index);
                            assert(ids@[k] == x);
                            assert(ids@.contains(x));
                        }
                        if o.contains(x) && !ids@.contains(x) {
                            let k = choose|k: int| 0 <= k < o.len() && o[k] == x;
                            if k < index {
                                assert(ids@[k] == x);
                            }
                        }
                        if ids@.contains(x) {
                            let m = choose|m: int| 0 <= m < ids@.len() && ids@[m] == x;
                            assert(o[m] == x);
                        }
                    }
                }
            },
        }
    }

    fn snapshot_ids(&self) -> (r: Vec<TabId>)
        ensures
            r@ == self.ids_spec(),
    {
        let mut ids: Vec<TabId> = Vec::new();
        let mut k: usize = 0;
        while k < self.tabs.len()
            invariant
                0 <= k <= self.tabs@.len(),
                ids@ == self.ids_spec().subrange(0, k as int),
            decreases self.tabs@.len() - k,
        {
            ids.push(self.tabs[k].info.id);
            k = k + 1;
            proof {
                assert(ids@ =~= self.ids_spec().subrange(0, k as int));
            }
        }
        proof {
            assert(ids@ =~= self.ids_spec());
        }
        ids
    }

    /// Closes each tab of `ids` (but `keep`) in turn.
    fn close_each(&mut self, ids: &Vec<TabId>, keep: Option<TabId>)
        requires
            old(self).wf(),
        ensures
            final(self).wf(),
            final(self).max_spec() == old(self).max_spec(),
            old(self).events_spec().is_prefix_of(final(self).events_spec()),
            forall|x: TabId|
                #[trigger] final(self).ids_spec().contains(x) <==> (old(self).ids_spec().contains(x)
                    && (!ids@.contains(x) || keep == Some(x))),
    {
        let ghost o = *self;
        let mut i: usize = 0;
        while i < ids.len()
            invariant
                self.wf(),
                0 <= i <= ids@.len(),
                self.max_spec() == o.max_spec(),
                o.events_spec().is_prefix_of(self.events_spec()),
                forall|x: TabId|
                    #[trigger] self.ids_spec().contains(x) <==> (o.ids_spec().contains(x) && (
                    !(exists|m: int| 0 <= m < i && ids@[m] == x) || keep == Some(x))),
            decreases ids@.len() - i,
        {
            let id = ids[i];
            let ghost before = *self;
            if keep != Some(id) {
                self.close_tab(id);
                proof {
                    assert forall|x: TabId| #[trigger] self.ids_spec().contains(x) == (before.ids_spec().contains(x) && x != id) by {
                        if before.ids_spec().contains(id) {
                            let idx = choose|idx: int|
                                0 <= idx < before.tabs_spec().len() && before.ids_spec()[idx] == id && {
                                    let rest = before.tabs_spec().remove(idx);
                                    if before.active_spec() == Some(id) {
                                        let next = adjacent_after_close(before.ids_spec(), idx);
                                        &&& self.active_spec() == next
                                        &&& match next {
                                            Some(n) => {
                                                let j = if idx + 1 < before.tabs_spec().len() {
                                                    idx
                                                } else {
                                                    idx - 1
                                                };
                                                &&& self.tabs_spec() == mark_at(rest, j, true)
                                                &&& self.events_spec() == before.events_spec().push(
                                                    TabManagerEvent::TabSwitched(n),
                                                ).push(TabManagerEvent::TabClosed(id))
                                            },
                                            None => {
                                                &&& self.tabs_spec() == rest
                                                &&& self.events_spec() == before.events_spec().push(
                                                    TabManagerEvent::TabClosed(id),
                                                )
                                            },
                                        }
                                    } else {
                                        &&& self.active_spec() == before.active_spec()
                                        &&& self.tabs_spec() == rest
                                        &&& self.events_spec() == before.events_spec().push(
                                            TabManagerEvent::TabClosed(id),
                                        )
                                    }
                                };
                            let rest = before.tabs_spec().remove(idx);
                            assert(self.ids_spec() =~= ids_of(rest));
                            assert(ids_of(rest) =~= before.ids_spec().remove(idx));
                            if self.ids_spec().contains(x) {
                                let m = choose|m: int| 0 <= m < self.ids_spec().len() && self.ids_spec()[m] == x;
                                let om = if m < idx { m } else { m + 1 };
                                assert(before.ids_spec()[om] == x);
                            }
                            if before.ids_spec().contains(x) && x != id {
                                let m = choose|m: int| 0 <= m < before.ids_spec().len() && before.ids_spec()[m] == x;
                                assert(m != idx);
                                let nm = if m < idx { m } else { m - 1 };
                                assert(self.ids_spec()[nm] == x);
                            }
                        }
                    }
                    assert(before.events_spec().is_prefix_of(self.events_spec())) by {
                        if before.ids_spec().contains(id) {
                            let e = self.events_spec();
                            assert(e.len() >= before.events_spec().len());
                            assert(e.subrange(0, before.events_spec().len() as int) =~= before.events_spec());
                        } else {
                            assert(self.events_spec() =~= before.events_spec());
                        }
                    }
                }
            }
            i = i + 1;
            proof {
                assert forall|x: TabId| #[trigger] self.ids_spec().contains(x) <==> (o.ids_spec().contains(x) && (!(exists|m: int| 0 <= m < i && ids@[m] == x) || keep == Some(x))) by {
                    if exists|m: int| 0 <= m < i && ids@[m] == x {
                        let m = choose|m: int| 0 <= m < i && ids@[m] == x;
                        if m < i - 1 {
                            assert(exists|m2: int| 0 <= m2 < i - 1 && ids@[m2] == x);
                        }
                    }
                }
                lemma_prefix_trans(o.events_spec(), before.events_spec(), self.events_spec());
            }
        }
        proof {
            assert forall|x: TabId| #[trigger] ids@.contains(x) <==> (exists|m: int| 0 <= m < ids@.len() && ids@[m] == x) by {
                if ids@.contains(x) {
                    let m = choose|m: int| 0 <= m < ids@.len() && ids@[m] == x;
                }
            }
        }
    }

    /// The effect of making the existing tab `id` active: a no-op when it is
    /// already active; else the old active tab loses its mark, `id` gets it,
    /// becomes active and a switch is reported.
    pub open spec fn switched(old: TabManager, new: TabManager, id: TabId) -> bool {
        if old.active_spec() == Some(id) {
            new == old
        } else {
            exists|ia: int, j: int|
                0 <= ia < old.tabs_spec().len() && 0 <= j < old.tabs_spec().len() && old.ids_spec()[ia]
                    == old.active_spec()->0 && old.ids_spec()[j] == id && {
                    &&& new.tabs_spec() == mark_at(mark_at(old.tabs_spec(), ia, false), j, true)
                    &&& new.active_spec() == Some(id)
                    &&& new.max_spec() == old.max_spec()
                    &&& new.events_spec() == old.events_spec().push(TabManagerEvent::TabSwitched(id))
                }
        }
    }

    /// Makes the tab `id` active. Returns whether it exists.
    pub fn switch_to_tab(&mut self, id: TabId) -> (r: bool)
        requires
            old(self).wf(),
        ensures
            final(self).wf(),
            r == old(self).ids_spec().contains(id),
            !r ==> *final(self) == *old(self),
            r ==> Self::switched(*old(self), *final(self), id),
    {
        let j = match self.position(id) {
            Some(j) => j,
            None => return false,
        };
        if self.active_tab_id == Some(id) {
            return true;
        }
        let ghost old_self = *self;
        let cur = match self.active_tab_id {
            Some(c) => c,
            None => {
                proof {
                    assert(self.tabs@.len() > 0);
                }
                return true;
            },
        };
        let ia = match self.position(cur) {
            Some(i) => i,
            None => {
                proof {
                    let i = choose|i: int|
                        0 <= i < self.tabs_spec().len() && #[trigger] self.tabs_spec()[i].info.id == cur
                            && self.tabs_spec()[i].info.is_active;
                    assert(self.ids_spec()[i] == cur);
                }
                return true;
            },
        };
        self.tabs[ia].info.is_active = false;
        self.tabs[j].info.is_active = true;
        self.active_tab_id = Some(id);
        self.events.push(TabManagerEvent::TabSwitched(id));
        proof {
            assert(self.tabs@ == mark_at(mark_at(old_self.tabs@, ia as int, false), j as int, true));
            assert(ids_of(self.tabs@) =~= ids_of(old_self.tabs@));
            assert(self.tabs@[j as int].info.id == id);
        }
        true
    }

    /// The effect of moving the active mark one tab right (`forward`) or
    /// left, wrapping around.
    pub open spec fn stepped(old: TabManager, new: TabManager, forward: bool) -> bool {
        exists|i: int|
            0 <= i < old.tabs_spec().len() && #[trigger] old.ids_spec()[i] == old.active_spec()->0 && Self::switched(
                old,
                new,
                old.ids_spec()[if forward {
                    (i + 1) % (old.tabs_spec().len() as int)
                } else if i == 0 {
                    old.tabs_spec().len() - 1
                } else {
                    i - 1
                }],
            )
    }

    /// Makes the tab right of the active one active (wrapping around).
    /// Returns `false` when there is no tab.
    pub fn switch_to_next_tab(&mut self) -> (r: bool)
        requires
            old(self).wf(),
        ensures
            final(self).wf(),
            r == (old(self).tabs_spec().len() > 0),
            !r ==> *final(self) == *old(self),
            r ==> Self::stepped(*old(self), *final(self), true),
    {
        self.switch_step(true)
    }

    /// Makes the tab left of the active one active (wrapping around).
    /// Returns `false` when there is no tab.
    pub fn switch_to_prev_tab(&mut self) -> (r: bool)
        requires
            old(self).wf(),
        ensures
            final(self).wf(),
            r == (old(self).tabs_spec().len() > 0),
            !r ==> *final(self) == *old(self),
            r ==> Self::stepped(*old(self), *final(self), false),
    {
        self.switch_step(false)
    }

    fn switch_step(&mut self, forward: bool) -> (r: bool)
        requires
            old(self).wf(),
        ensures
            final(self).wf(),
            r == (old(self).tabs_spec().len() > 0),
            !r ==> *final(self) == *old(self),
            r ==> exists|i: int|
                0 <= i < old(self).tabs_spec().len() && #[trigger] old(self).ids_spec()[i] == old(self).active_spec()->0 && Self::switched(
                    *old(self),
                    *final(self),
                    old(self).ids_spec()[if forward {
                        (i + 1) % (old(self).tabs_spec().len() as int)
                    } else if i == 0 {
                        old(self).tabs_spec().len() - 1
                    } else {
                        i - 1
                    }],
                ),
    {
        let cur = match self.active_tab_id {
            Some(c) => c,
            None => return false,
        };
        let idx = match self.position(cur) {
            Some(i) => i,
            None => {
                proof {
                    let i = choose|i: int|
                        0 <= i < self.tabs_spec().len() && #[trigger] self.tabs_spec()[i].info.id == cur
                            && self.tabs_spec()[i].info.is_active;
                    assert(self.ids_spec()[i] == cur);
                }
                return false;
            },
        };
        let len = self.tabs.len();
        let t = if forward {
            if idx + 1 < len { idx + 1 } else { 0 }
        } else if idx == 0 {
            len - 1
        } else {
            idx - 1
        };
        proof {
            if forward {
                if idx + 1 < len {
                    vstd::arithmetic::div_mod::lemma_small_mod((idx + 1) as nat, len as nat);
                } else {
                    vstd::arithmetic::div_mod::lemma_mod_self_0(len as int);
                }
            }
        }
        let target = self.tabs[t].info.id;
        proof {
            assert(self.ids_spec()[t as int] == target);
            assert(self.ids_spec().contains(target));
        }
        let ghost before = *self;
        let ok = self.switch_to_tab(target);
        proof {
            assert(before.ids_spec()[idx as int] == before.active_spec()->0);
        }
        true
    }

    /// Makes the tab at `index` (from 0) active. Returns `false` when there
    /// is no such tab.
    pub fn switch_to_tab_at_index(&mut self, index: usize) -> (r: bool)
        requires
            old(self).wf(),
        ensures
            final(self).wf(),
            r == (index < old(self).tabs_spec().len()),
            !r ==> *final(self) == *old(self),
            r ==> Self::switched(*old(self), *final(self), old(self).ids_spec()[index as int]),
    {
        if index < self.tabs.len() {
            let id = self.tabs[index].info.id;
            let ok = self.switch_to_tab(id);
            proof {
                assert(old(self).ids_spec()[index as int] == id);
            }
            true
        } else {
            false
        }
    }

    /// Moves the tab `id` to `new_index` (at most the last index). Returns
    /// whether the tab moved.
    pub fn move_tab(&mut self, id: TabId, new_index: usize) -> (r: bool)
        requires
            old(self).wf(),
        ensures
            final(self).wf(),
            r <==> exists|cur: int|
                0 <= cur < old(self).tabs_spec().len() && old(self).ids_spec()[cur] == id && cur
                    != vstd::math::min(new_index as int, old(self).tabs_spec().len() - 1),
            !r ==> *final(self) == *old(self),
            r ==> exists|cur: int|
                0 <= cur < old(self).tabs_spec().len() && old(self).ids_spec()[cur] == id && {
                    let ni = vstd::math::min(new_index as int, old(self).tabs_spec().len() - 1);
                    &&& final(self).tabs_spec() == old(self).tabs_spec().remove(cur).insert(
                        ni,
                        old(self).tabs_spec()[cur],
                    )
                    &&& final(self).active_spec() == old(self).active_spec()
                    &&& final(self).max_spec() == old(self).max_spec()
                    &&& final(self).events_spec() == old(self).events_spec().push(
                        TabManagerEvent::TabMoved(id, ni as usize),
                    )
                },
    {
        let cur = match self.position(id) {
            Some(c) => c,
            None => return false,
        };
        let len = self.tabs.len();
        let ni = if new_index < len - 1 { new_index } else { len - 1 };
        if cur == ni {
            proof {
                assert forall|c: int|
                    0 <= c < old(self).tabs_spec().len() && old(self).ids_spec()[c] == id implies c
                    == vstd::math::min(new_index as int, old(self).tabs_spec().len() - 1) by {
                    assert(c == cur);
                }
            }
            return false;
        }
        let ghost old_tabs = self.tabs@;
        let ghost old_ids = self.ids_spec();
        let t = self.tabs.remove(cur);
        self.tabs.insert(ni, t);
        self.events.push(TabManagerEvent::TabMoved(id, ni));
        proof {
            let n = old_tabs.remove(cur as int).insert(ni as int, old_tabs[cur as int]);
            assert(self.tabs@ =~= n);
            let c = cur as int;
            let t2 = ni as int;
            assert forall|k: int| 0 <= k < n.len() implies #[trigger] n[k] == old_tabs[moved_src(k, c, t2)] by {
            }
            let ids = self.ids_spec();
            assert forall|a: int, b: int|
                0 <= a < ids.len() && 0 <= b < ids.len() && a != b implies ids[a] != ids[b] by {
                assert(n[a] == old_tabs[moved_src(a, c, t2)]);
                assert(n[b] == old_tabs[moved_src(b, c, t2)]);
                assert(ids[a] == old_ids[moved_src(a, c, t2)]);
                assert(ids[b] == old_ids[moved_src(b, c, t2)]);
            }
            let act = self.active_tab_id->0;
            let i = choose|i: int|
                0 <= i < old_tabs.len() && #[trigger] old_tabs[i].info.id == act && old_tabs[i].info.is_active;
            let k = if i == cur { ni as int } else if cur < ni {
                if i < cur { i } else if i <= ni { i - 1 } else { i }
            } else {
                if i < ni { i } else if i < cur { i + 1 } else { i }
            };
            assert(n[k] == old_tabs[i]);
        }
        true
    }

    /// Renames the tab `id`. Returns whether it exists.
    pub fn update_tab_title(&mut self, id: TabId, title: &str) -> (r: bool)
        requires
            old(self).wf(),
        ensures
            final(self).wf(),
            r == old(self).ids_spec().contains(id),
            !r ==> *final(self) == *old(self),
            r ==> exists|j: int|
                0 <= j < old(self).tabs_spec().len() && old(self).ids_spec()[j] == id
                    && final(self).tabs_spec().len() == old(self).tabs_spec().len()
                    && final(self).tabs_spec()[j].info.title@ == title@
                    && (forall|k: int| 0 <= k < old(self).tabs_spec().len() && k != j
                        ==> #[trigger] final(self).tabs_spec()[k] == old(self).tabs_spec()[k])
                    && final(self).tabs_spec()[j].info.id == id
                    && final(self).tabs_spec()[j].info.is_active == old(self).tabs_spec()[j].info.is_active
                    && final(self).tabs_spec()[j].info.is_modified == old(self).tabs_spec()[j].info.is_modified
                    && final(self).tabs_spec()[j].split_manager == old(self).tabs_spec()[j].split_manager,
            r ==> final(self).active_spec() == old(self).active_spec() && final(self).max_spec()
                == old(self).max_spec() && final(self).events_spec() == old(self).events_spec().push(
                TabManagerEvent::TabUpdated(id),
            ),
    {
        let j = match self.position(id) {
            Some(j) => j,
            None => return false,
        };
        let ghost old_tabs = self.tabs@;
        self.tabs[j].info.title = owned(title);
        self.events.push(TabManagerEvent::TabUpdated(id));
        proof {
            assert(ids_of(self.tabs@) =~= ids_of(old_tabs));
            let act = self.active_tab_id->0;
            if self.active_tab_id is Some {
                let i = choose|i: int|
                    0 <= i < old_tabs.len() && #[trigger] old_tabs[i].info.id == act && old_tabs[i].info.is_active;
                assert(self.tabs@[i].info.id == act);
            }
        }
        true
    }

    /// Sets the unsaved marker of the tab `id`. Returns whether it exists.
    pub fn set_tab_modified(&mut self, id: TabId, modified: bool) -> (r: bool)
        requires
            old(self).wf(),
        ensures
            final(self).wf(),
            r == old(self).ids_spec().contains(id),
            !r ==> *final(self) == *old(self),
            r ==> exists|j: int|
                0 <= j < old(self).tabs_spec().len() && old(self).ids_spec()[j] == id
                    && final(self).tabs_spec() == old(self).tabs_spec().update(
                    j,
                    TabData {
                        info: TabInfo { is_modified: modified, ..old(self).tabs_spec()[j].info },
                        ..old(self).tabs_spec()[j]
                    },
                ),
            r ==> final(self).active_spec() == old(self).active_spec() && final(self).max_spec()
                == old(self).max_spec() && final(self).events_spec() == old(self).events_spec().push(
                TabManagerEvent::TabUpdated(id),
            ),
    {
        let j = match self.position(id) {
            Some(j) => j,
            None => return false,
        };
        let ghost old_tabs = self.tabs@;
        self.tabs[j].info.is_modified = modified;
        self.events.push(TabManagerEvent::TabUpdated(id));
        proof {
            assert(ids_of(self.tabs@) =~= ids_of(old_tabs));
            let act = self.active_tab_id->0;
            if self.active_tab_id is Some {
                let i = choose|i: int|
                    0 <= i < old_tabs.len() && #[trigger] old_tabs[i].info.id == act && old_tabs[i].info.is_active;
                assert(self.tabs@[i].info.id == act);
            }
        }
        true
    }

    /// What the tab bar shows, in display order.
    pub fn tabs(&self) -> (r: Vec<&TabInfo>)
        ensures
            r@.len() == self.tabs_spec().len(),
            forall|i: int| 0 <= i < r@.len() ==> *r@[i] == #[trigger] self.tabs_spec()[i].info,
    {
        let mut r: Vec<&TabInfo> = Vec::new();
        let mut k: usize = 0;
        while k < self.tabs.len()
            invariant
                0 <= k <= self.tabs@.len(),
                r@.len() == k,
                forall|i: int| 0 <= i < k ==> *r@[i] == #[trigger] self.tabs@[i].info,
            decreases self.tabs@.len() - k,
        {
            r.push(&self.tabs[k].info);
            k = k + 1;
        }
        r
    }

    /// The tabs, in display order.
    pub fn tab_data_list(&self) -> (r: Vec<&TabData>)
        ensures
            r@.len() == self.tabs_spec().len(),
            forall|i: int| 0 <= i < r@.len() ==> *r@[i] == #[trigger] self.tabs_spec()[i],
    {
        let mut r: Vec<&TabData> = Vec::new();
        let mut k: usize = 0;
        while k < self.tabs.len()
            invariant
                0 <= k <= self.tabs@.len(),
                r@.len() == k,
                forall|i: int| 0 <= i < k ==> *r@[i] == #[trigger] self.tabs@[i],
            decreases self.tabs@.len() - k,
        {
            r.push(&self.tabs[k]);
            k = k + 1;
        }
        r
    }

    /// The tab `id`.
    pub fn get_tab_data(&self, id: TabId) -> (r: Option<&TabData>)
        requires
            self.wf(),
        ensures
            r is Some == self.ids_spec().contains(id),
            r is Some ==> exists|j: int|
                0 <= j < self.tabs_spec().len() && self.ids_spec()[j] == id && *r->0
                    == self.tabs_spec()[j],
    {
        match self.position(id) {
            Some(j) => Some(&self.tabs[j]),
            None => None,
        }
    }

    /// What the tab bar shows for the tab `id`.
    pub fn get_tab(&self, id: TabId) -> (r: Option<&TabInfo>)
        requires
            self.wf(),
        ensures
            r is Some == self.ids_spec().contains(id),
            r is Some ==> exists|j: int|
                0 <= j < self.tabs_spec().len() && self.ids_spec()[j] == id && *r->0
                    == self.tabs_spec()[j].info,
    {
        match self.position(id) {
            Some(j) => Some(&self.tabs[j].info),
            None => None,
        }
    }

    /// The layout of the tab `id`.
    pub fn get_split_manager(&self, id: TabId) -> (r: Option<&SplitManager>)
        requires
            self.wf(),
        ensures
            r is Some == self.ids_spec().contains(id),
            r is Some ==> exists|j: int|
                0 <= j < self.tabs_spec().len() && self.ids_spec()[j] == id && *r->0
                    == self.tabs_spec()[j].split_manager,
    {
        match self.position(id) {
            Some(j) => Some(&self.tabs[j].split_manager),
            None => None,
        }
    }

    /// Swaps the layout of the tab `id` with `layout` and hands back the
    /// old one; `layout` comes back when there is no such tab.
    pub fn replace_split_manager(&mut self, id: TabId, layout: SplitManager) -> (r: Result<
        SplitManager,
        SplitManager,
    >)
        requires
            old(self).wf(),
        ensures
            final(self).wf(),
            !old(self).ids_spec().contains(id) ==> r == Err::<SplitManager, SplitManager>(layout)
                && *final(self) == *old(self),
            old(self).ids_spec().contains(id) ==> exists|j: int|
                0 <= j < old(self).tabs_spec().len() && old(self).ids_spec()[j] == id && r
                    == Ok::<SplitManager, SplitManager>(old(self).tabs_spec()[j].split_manager)
                    && final(self).tabs_spec() == old(self).tabs_spec().update(
                    j,
                    TabData { split_manager: layout, ..old(self).tabs_spec()[j] },
                ),
            final(self).active_spec() == old(self).active_spec(),
            final(self).max_spec() == old(self).max_spec(),
            final(self).events_spec() == old(self).events_spec(),
    {
        let j = match self.position(id) {
            Some(j) => j,
            None => return Err(layout),
        };
        let ghost old_tabs = self.tabs@;
        let mut layout = layout;
        std::mem::swap(&mut layout, &mut self.tabs[j].split_manager);
        proof {
            assert(ids_of(self.tabs@) =~= ids_of(old_tabs));
            let act = self.active_tab_id->0;
            if self.active_tab_id is Some {
                let i = choose|i: int|
                    0 <= i < old_tabs.len() && #[trigger] old_tabs[i].info.id == act && old_tabs[i].info.is_active;
                assert(self.tabs@[i].info == old_tabs[i].info);
            }
        }
        Ok(layout)
    }

    /// What the tab bar shows for the active tab.
    pub fn active_tab(&self) -> (r: Option<&TabInfo>)
        requires
            self.wf(),
        ensures
            r is Some == self.active_spec() is Some,
            r is Some ==> r->0.id == self.active_spec()->0 && exists|j: int|
                0 <= j < self.tabs_spec().len() && *r->0 == self.tabs_spec()[j].info,
    {
        match self.active_tab_id {
            Some(id) => {
                let r = self.get_tab(id);
                proof {
                    let i = choose|i: int|
                        0 <= i < self.tabs_spec().len() && #[trigger] self.tabs_spec()[i].info.id == id
                            && self.tabs_spec()[i].info.is_active;
                    assert(self.ids_spec()[i] == id);
                }
                r
            },
            None => None,
        }
    }

    /// The active tab.
    pub fn active_tab_data(&self) -> (r: Option<&TabData>)
        requires
            self.wf(),
        ensures
            r is Some == self.active_spec() is Some,
            r is Some ==> r->0.info.id == self.active_spec()->0 && exists|j: int|
                0 <= j < self.tabs_spec().len() && *r->0 == self.tabs_spec()[j],
    {
        match self.active_tab_id {
            Some(id) => {
                let r = self.get_tab_data(id);
                proof {
                    let i = choose|i: int|
                        0 <= i < self.tabs_spec().len() && #[trigger] self.tabs_spec()[i].info.id == id
                            && self.tabs_spec()[i].info.is_active;
                    assert(self.ids_spec()[i] == id);
                }
                r
            },
            None => None,
        }
    }

    /// The layout of the active tab.
    pub fn active_split_manager(&self) -> (r: Option<&SplitManager>)
        requires
            self.wf(),
        ensures
            r is Some == self.active_spec() is Some,
            r is Some ==> exists|j: int|
                0 <= j < self.tabs_spec().len() && self.ids_spec()[j] == self.active_spec()->0
                    && *r->0 == self.tabs_spec()[j].split_manager,
    {
        match self.active_tab_id {
            Some(id) => {
                let r = self.get_split_manager(id);
                proof {
                    let i = choose|i: int|
                        0 <= i < self.tabs_spec().len() && #[trigger] self.tabs_spec()[i].info.id == id
                            && self.tabs_spec()[i].info.is_active;
                    assert(self.ids_spec()[i] == id);
                }
                r
            },
            None => None,
        }
    }

    /// The active tab's id.
    pub fn active_tab_id(&self) -> (r: Option<TabId>)
        ensures
            r == self.active_spec(),
    {
        self.active_tab_id
    }

    /// The number of tabs.
    pub fn tab_count(&self) -> (r: usize)
        ensures
            r == self.tabs_spec().len(),
    {
        self.tabs.len()
    }

    /// Whether there is a tab.
    pub fn has_tabs(&self) -> (r: bool)
        ensures
            r == (self.tabs_spec().len() > 0),
    {
        self.tabs.len() > 0
    }

    /// The display index of the tab `id`.
    pub fn get_tab_index(&self, id: TabId) -> (r: Option<usize>)
        requires
            self.wf(),
        ensures
            match r {
                Some(i) => i < self.tabs_spec().len() && self.ids_spec()[i as int] == id,
                None => !self.ids_spec().contains(id),
            },
    {
        self.position(id)
    }

    /// Whether the tab `id` exists.
    pub fn contains_tab(&self, id: TabId) -> (r: bool)
        requires
            self.wf(),
        ensures
            r == self.ids_spec().contains(id),
    {
        self.position(id).is_some()
    }

    /// Hands over the events reported since the last call.
    pub fn take_events(&mut self) -> (r: Vec<TabManagerEvent>)
        ensures
            r@ == old(self).events_spec(),
            final(self).events_spec().len() == 0,
            final(self).tabs_spec() == old(self).tabs_spec(),
            final(self).active_spec() == old(self).active_spec(),
            final(self).max_spec() == old(self).max_spec(),
            final(self).wf() == old(self).wf(),
    {
        let mut r = Vec::new();
        std::mem::swap(&mut r, &mut self.events);
        r
    }
}

impl TabManager {
    /// The layout of the tab `id`, when there is such a tab.
    pub open spec fn layout_spec(&self, id: TabId) -> Option<SplitManager> {
        if self.ids_spec().contains(id) {
            Some(self.tabs_spec()[self.ids_spec().index_of(id)].split_manager)
        } else {
            None
        }
    }

    /// What the tab bar shows for the tab `id`, when there is such a tab.
    pub open spec fn info_spec(&self, id: TabId) -> Option<TabInfo> {
        if self.ids_spec().contains(id) {
            Some(self.tabs_spec()[self.ids_spec().index_of(id)].info)
        } else {
            None
        }
    }

    /// In a well-formed manager, the tab at index `j` is what its
    /// identifier names.
    pub proof fn lemma_info_at(&self, j: int)
        requires
            self.wf(),
            0 <= j < self.tabs_spec().len(),
        ensures
            self.info_spec(self.ids_spec()[j]) == Some(self.tabs_spec()[j].info),
    {
        let id = self.ids_spec()[j];
        assert(self.ids_spec().contains(id));
        let k = self.ids_spec().index_of(id);
        assert(self.ids_spec()[k] == id);
    }

    /// `new` is `old` with the layout of the tab `id` (which exists) set to
    /// `layout`, and nothing else changed.
    pub open spec fn layout_replaced(old: TabManager, new: TabManager, id: TabId, layout: SplitManager) -> bool {
        &&& old.ids_spec().contains(id)
        &&& new.ids_spec() == old.ids_spec()
        &&& forall|i: int| 0 <= i < old.tabs_spec().len() ==> (#[trigger] new.tabs_spec()[i]).info == old.tabs_spec()[i].info
        &&& new.layout_spec(id) == Some(layout)
        &&& forall|x: TabId| x != id ==> #[trigger] new.layout_spec(x) == old.layout_spec(x)
        &&& new.active_spec() == old.active_spec()
        &&& new.max_spec() == old.max_spec()
        &&& new.events_spec() == old.events_spec()
    }

    /// In a well-formed manager, the layout of the tab at index `j` is the
    /// layout of its identifier.
    pub proof fn lemma_layout_at(&self, j: int)
        requires
            self.wf(),
            0 <= j < self.tabs_spec().len(),
        ensures
            self.layout_spec(self.ids_spec()[j]) == Some(self.tabs_spec()[j].split_manager),
    {
        let id = self.ids_spec()[j];
        assert(self.ids_spec().contains(id));
        let k = self.ids_spec().index_of(id);
        assert(self.ids_spec()[k] == id);
    }

    /// Replacing the layout of a tab twice is replacing it once with the
    /// second layout.
    pub proof fn lemma_replaced_twice(a: TabManager, b: TabManager, c: TabManager, id: TabId, l1: SplitManager, l2: SplitManager)
        requires
            Self::layout_replaced(a, b, id, l1),
            Self::layout_replaced(b, c, id, l2),
        ensures
            Self::layout_replaced(a, c, id, l2),
    {
        assert forall|i: int| 0 <= i < a.tabs_spec().len() implies (#[trigger] c.tabs_spec()[i]).info == a.tabs_spec()[i].info by {
            assert(b.tabs_spec()[i].info == a.tabs_spec()[i].info);
            assert(ids_of(b.tabs_spec()).len() == ids_of(a.tabs_spec()).len());
        }
        assert forall|x: TabId| x != id implies #[trigger] c.layout_spec(x) == a.layout_spec(x) by {
            assert(b.layout_spec(x) == a.layout_spec(x));
        }
    }

    /// Sets the layout of the tab `id` to `layout` and hands back the old
    /// one; `layout` comes back when there is no such tab.
    pub fn swap_layout(&mut self, id: TabId, layout: SplitManager) -> (r: Result<SplitManager, SplitManager>)
        requires
            old(self).wf(),
        ensures
            final(self).wf(),
            match old(self).layout_spec(id) {
                Some(l) => r == Ok::<SplitManager, SplitManager>(l) && Self::layout_replaced(*old(self), *final(self), id, layout),
                None => r == Err::<SplitManager, SplitManager>(layout) && *final(self) == *old(self),
            },
    {
        let ghost before = *self;
        let r = self.replace_split_manager(id, layout);
        proof {
            if before.ids_spec().contains(id) {
                let j = choose|j: int|
                    0 <= j < before.tabs_spec().len() && before.ids_spec()[j] == id && r
                        == Ok::<SplitManager, SplitManager>(before.tabs_spec()[j].split_manager)
                        && self.tabs_spec() == before.tabs_spec().update(
                        j,
                        TabData { split_manager: layout, ..before.tabs_spec()[j] },
                    );
                before.lemma_layout_at(j);
                assert(self.ids_spec() =~= before.ids_spec());
                self.lemma_layout_at(j);
                assert forall|x: TabId| x != id implies #[trigger] self.layout_spec(x) == before.layout_spec(x) by {
                    if before.ids_spec().contains(x) {
                        let k = before.ids_spec().index_of(x);
                        assert(before.ids_spec()[k] == x);
                        before.lemma_layout_at(k);
                        self.lemma_layout_at(k);
                    }
                }
            }
        }
        r
    }
}

impl Default for TabManager {
    fn default() -> (r: TabManager)
        ensures
            r.wf(),
            r.tabs_spec().len() == 0,
            r.active_spec() is None,
            r.max_spec() == 0,
            r.events_spec().len() == 0,
    {
        TabManager::new()
    }
}

} // verus!
