//! The host list: the stored hosts shown by group, selection with
//! double-click detection, folding of groups, the context menu and the
//! dialogs that create, edit and delete hosts.

use vstd::prelude::*;
use vstd::string::*;

use crate::app::session::session_coordinator::saturating_diff;
use crate::entities::{HostConfig, HostId};
use crate::seqs::lemma_filter_push;
use crate::text::{decimal, lemma_text_order_antisymmetric, lemma_text_order_zero, push_decimal, str_eq, text_compare, text_order};
use crate::ui::dialogs::delete_confirm_dialog::{DeleteConfirmDialog, DeleteConfirmEvent, DeleteTarget};
use crate::ui::dialogs::host_connection_dialog::{DialogMode, HostConnectionDialog};

verus! {

/// Two clicks on one host closer than this, in milliseconds, are a
/// double click.
pub const DOUBLE_CLICK_MS: u64 = 500;

/// What the host list tells its owner.
#[derive(Debug)]
pub enum HostListEvent {
    /// Connect to this host.
    ConnectRequested(HostConfig),
    /// Open the dialog for a new host.
    NewHostRequested,
    /// Open the dialog that edits this host.
    EditHostRequested(HostConfig),
    /// This host was deleted.
    HostDeleted(HostId),
}

/// The group a host is listed under: its own, or the default group.
pub open spec fn group_of(h: HostConfig) -> Seq<char> {
    match h.group {
        Some(g) => g@,
        None => "默认分组"@,
    }
}

/// The hosts of `s` listed under `g`, in order.
pub open spec fn hosts_of_group(s: Seq<HostConfig>, g: Seq<char>) -> Seq<HostConfig> {
    s.filter(|h: HostConfig| group_of(h) == g)
}

/// Whether a click on `id` at `now_ms` completes a double click after the
/// click `last` (the time between them counted as zero when the clock went
/// back).
pub open spec fn is_double_click(last: Option<(HostId, u64)>, id: HostId, now_ms: u64) -> bool {
    match last {
        Some((last_id, t)) => last_id == id && saturating_diff(now_ms, t) < DOUBLE_CLICK_MS,
        None => false,
    }
}

/// `i` is the first place in `s` of a host with identifier `id`.
pub open spec fn first_with_id(s: Seq<HostConfig>, id: Option<HostId>, i: int) -> bool {
    &&& 0 <= i < s.len()
    &&& s[i].id == id
    &&& forall|k: int| 0 <= k < i ==> s[k].id != id
}

/// No host of `s` has identifier `id`.
pub open spec fn none_with_id(s: Seq<HostConfig>, id: Option<HostId>) -> bool {
    forall|k: int| 0 <= k < s.len() ==> s[k].id != id
}

/// The subtitle of a host in the list: `user@host:port`.
pub open spec fn subtitle_spec(h: HostConfig) -> Seq<char> {
    h.username@ + "@"@ + h.host@ + ":"@ + decimal(h.port as nat)
}

/// The group a host is listed under.
pub fn group_name(h: &HostConfig) -> (r: &str)
    ensures
        r@ == group_of(*h),
{
    match &h.group {
        Some(g) => g.as_str(),
        None => "默认分组",
    }
}

/// The subtitle of a host in the list: `user@host:port`.
pub fn host_subtitle(h: &HostConfig) -> (r: String)
    ensures
        r@ == subtitle_spec(*h),
{
    let mut s = h.username.clone();
    s.append("@");
    s.append(h.host.as_str());
    s.append(":");
    push_decimal(&mut s, h.port as u64);
    s
}

/// The first place of a host with identifier `id`.
fn host_index(hosts: &Vec<HostConfig>, id: Option<HostId>) -> (r: Option<usize>)
    ensures
        match r {
            Some(i) => first_with_id(hosts@, id, i as int),
            None => none_with_id(hosts@, id),
        },
{
    let mut i: usize = 0;
    while i < hosts.len()
        invariant
            0 <= i <= hosts@.len(),
            forall|k: int| 0 <= k < i ==> hosts@[k].id != id,
        decreases hosts@.len() - i,
    {
        if hosts[i].id == id {
            return Some(i);
        }
        i = i + 1;
    }
    None
}

/// The place of `g` among `names`.
fn name_index(names: &Vec<String>, g: &str) -> (r: Option<usize>)
    ensures
        match r {
            Some(k) => k < names@.len() && names@[k as int]@ == g@,
            None => forall|k: int| 0 <= k < names@.len() ==> names@[k]@ != g@,
        },
{
    let mut i: usize = 0;
    while i < names.len()
        invariant
            0 <= i <= names@.len(),
            forall|k: int| 0 <= k < i ==> names@[k]@ != g@,
        decreases names@.len() - i,
    {
        if str_eq(names[i].as_str(), g) {
            return Some(i);
        }
        i = i + 1;
    }
    None
}

/// Where `g` goes among the ascending `names`: before the first name it
/// precedes.
fn insert_position(names: &Vec<String>, g: &str) -> (r: usize)
    ensures
        r <= names@.len(),
        forall|k: int| 0 <= k < r ==> text_order(g@, (#[trigger] names@[k])@) >= 0,
        r < names@.len() ==> text_order(g@, names@[r as int]@) < 0,
{
    let mut i: usize = 0;
    while i < names.len()
        invariant
            0 <= i <= names@.len(),
            forall|k: int| 0 <= k < i ==> text_order(g@, (#[trigger] names@[k])@) >= 0,
        decreases names@.len() - i,
    {
        if text_compare(g, names[i].as_str()) < 0 {
            return i;
        }
        i = i + 1;
    }
    i
}

/// The hosts listed under `g`, in order.
pub fn hosts_in_group(hosts: &Vec<HostConfig>, g: &str) -> (r: Vec<HostConfig>)
    ensures
        r@ == hosts_of_group(hosts@, g@),
{
    let ghost pred = |h: HostConfig| group_of(h) == g@;
    let mut r: Vec<HostConfig> = Vec::new();
    let mut i: usize = 0;
    while i < hosts.len()
        invariant
            0 <= i <= hosts@.len(),
            pred == (|h: HostConfig| group_of(h) == g@),
            r@ == hosts@.take(i as int).filter(pred),
        decreases hosts@.len() - i,
    {
        proof {
            assert(hosts@.take(i as int + 1) =~= hosts@.take(i as int).push(hosts@[i as int]));
            lemma_filter_push(hosts@.take(i as int), pred, hosts@[i as int]);
        }
        if str_eq(group_name(&hosts[i]), g) {
            r.push(hosts[i].clone());
        }
        i = i + 1;
    }
    proof {
        assert(hosts@.take(hosts@.len() as int) =~= hosts@);
    }
    r
}

/// The texts of a list of strings.
pub open spec fn texts(v: Seq<String>) -> Seq<Seq<char>> {
    v.map_values(|s: String| s@)
}

/// Some host among the first `i` is listed under `x`.
#[verifier::opaque]
pub open spec fn group_of_some(hosts: Seq<HostConfig>, i: int, x: Seq<char>) -> bool {
    exists|j: int| 0 <= j < i && group_of(hosts[j]) == x
}

/// `x` is among `vs`.
#[verifier::opaque]
pub open spec fn listed(vs: Seq<Seq<char>>, x: Seq<char>) -> bool {
    exists|a: int| 0 <= a < vs.len() && vs[a] == x
}

/// `vs` holds, each once and in ascending order, exactly the groups of the
/// first `i` hosts.
pub open spec fn groups_of_prefix(vs: Seq<Seq<char>>, hosts: Seq<HostConfig>, i: int) -> bool {
    &&& forall|a: int, b: int| 0 <= a < b < vs.len() ==> vs[a] != vs[b]
    &&& forall|a: int| 0 <= a < vs.len() - 1 ==> text_order(#[trigger] vs[a], vs[a + 1]) < 0
    &&& forall|a: int| 0 <= a < vs.len() ==> group_of_some(hosts, i, #[trigger] vs[a])
    &&& forall|j: int| 0 <= j < i ==> listed(vs, group_of(#[trigger] hosts[j]))
}

proof fn lemma_group_found(vs: Seq<Seq<char>>, hosts: Seq<HostConfig>, i: int, k: int)
    requires
        0 <= i < hosts.len(),
        groups_of_prefix(vs, hosts, i),
        0 <= k < vs.len(),
        vs[k] == group_of(hosts[i]),
    ensures
        groups_of_prefix(vs, hosts, i + 1),
{
    assert forall|a: int| 0 <= a < vs.len() implies group_of_some(hosts, i + 1, #[trigger] vs[a]) by {
        assert(group_of_some(hosts, i, vs[a]));
        reveal(group_of_some);
        let j = choose|j: int| 0 <= j < i && group_of(hosts[j]) == vs[a];
        assert(0 <= j < i + 1 && group_of(hosts[j]) == vs[a]);
    }
    assert forall|j: int| 0 <= j < i + 1 implies listed(vs, group_of(#[trigger] hosts[j])) by {
        if j == i {
            reveal(listed);
            assert(0 <= k < vs.len() && vs[k] == group_of(hosts[j]));
        }
    }
}

proof fn lemma_group_inserted(vs: Seq<Seq<char>>, hosts: Seq<HostConfig>, i: int, pos: int, g: Seq<char>)
    requires
        0 <= i < hosts.len(),
        groups_of_prefix(vs, hosts, i),
        g == group_of(hosts[i]),
        forall|k: int| 0 <= k < vs.len() ==> vs[k] != g,
        0 <= pos <= vs.len(),
        forall|k: int| 0 <= k < pos ==> text_order(g, #[trigger] vs[k]) >= 0,
        pos < vs.len() ==> text_order(g, vs[pos]) < 0,
    ensures
        groups_of_prefix(vs.insert(pos, g), hosts, i + 1),
{
    let n = vs.insert(pos, g);
    assert forall|a: int| 0 <= a < n.len() && a != pos implies #[trigger] n[a] == vs[if a < pos { a } else { a - 1 }] by {}
    assert forall|a: int, b: int| 0 <= a < b < n.len() implies n[a] != n[b] by {
        if a == pos {
            assert(n[b] == vs[b - 1]);
        } else if b == pos {
            assert(n[a] == vs[a]);
        } else {
            assert(n[a] == vs[if a < pos { a } else { a - 1 }]);
            assert(n[b] == vs[if b < pos { b } else { b - 1 }]);
        }
    }
    assert forall|a: int| 0 <= a < n.len() - 1 implies text_order(#[trigger] n[a], n[a + 1]) < 0 by {
        if a + 1 < pos {
            assert(n[a] == vs[a]);
            assert(n[a + 1] == vs[a + 1]);
        } else if a + 1 == pos {
            assert(n[a] == vs[a]);
            assert(text_order(g, vs[a]) >= 0);
            lemma_text_order_zero(g, vs[a]);
            lemma_text_order_antisymmetric(g, vs[a]);
        } else if a == pos {
            assert(n[a + 1] == vs[a]);
        } else {
            assert(n[a] == vs[a - 1]);
            assert(n[a + 1] == vs[a]);
        }
    }
    assert forall|a: int| 0 <= a < n.len() implies group_of_some(hosts, i + 1, #[trigger] n[a]) by {
        reveal(group_of_some);
        if a == pos {
            assert(0 <= i < i + 1 && group_of(hosts[i]) == n[a]);
        } else {
            let a2 = if a < pos { a } else { a - 1 };
            assert(n[a] == vs[a2]);
            assert(group_of_some(hosts, i, vs[a2]));
            let j = choose|j: int| 0 <= j < i && group_of(hosts[j]) == vs[a2];
            assert(0 <= j < i + 1 && group_of(hosts[j]) == n[a]);
        }
    }
    assert forall|j: int| 0 <= j < i + 1 implies listed(n, group_of(#[trigger] hosts[j])) by {
        reveal(listed);
        if j == i {
            assert(0 <= pos < n.len() && n[pos] == group_of(hosts[j]));
        } else {
            assert(listed(vs, group_of(hosts[j])));
            let a = choose|a: int| 0 <= a < vs.len() && vs[a] == group_of(hosts[j]);
            let a2 = if a < pos { a } else { a + 1 };
            assert(n[a2] == vs[a]);
            assert(0 <= a2 < n.len() && n[a2] == group_of(hosts[j]));
        }
    }
}

/// The names of the groups of `hosts`, each once, in ascending order.
fn group_names(hosts: &Vec<HostConfig>) -> (r: Vec<String>)
    ensures
        groups_of_prefix(texts(r@), hosts@, hosts@.len() as int),
{
    let mut names: Vec<String> = Vec::new();
    let mut i: usize = 0;
    proof {
        assert(texts(names@) =~= Seq::<Seq<char>>::empty());
    }
    while i < hosts.len()
        invariant
            0 <= i <= hosts@.len(),
            groups_of_prefix(texts(names@), hosts@, i as int),
        decreases hosts@.len() - i,
    {
        let g = group_name(&hosts[i]);
        match name_index(&names, g) {
            Some(k) => {
                proof {
                    lemma_group_found(texts(names@), hosts@, i as int, k as int);
                }
            },
            None => {
                let pos = insert_position(&names, g);
                let ghost before = texts(names@);
                proof {
                    assert forall|k: int| 0 <= k < before.len() implies before[k] != g@ by {
                        assert(before[k] == names@[k]@);
                    }
                    assert forall|k: int| 0 <= k < pos implies text_order(g@, #[trigger] before[k]) >= 0 by {
                        assert(before[k] == names@[k]@);
                    }
                    lemma_group_inserted(before, hosts@, i as int, pos as int, g@);
                }
                names.insert(pos, g.to_string());
                proof {
                    assert(texts(names@) =~= before.insert(pos as int, g@));
                }
            },
        }
        i = i + 1;
    }
    names
}

/// `new` has the group `name` folded where `old` had it unfolded and the
/// other way round, and every other group as `old` had it.
pub open spec fn group_toggled(old: HostListView, new: HostListView, name: Seq<char>) -> bool {
    forall|g: Seq<char>| #[trigger] new.expanded_spec(g) == if g == name {
        !old.expanded_spec(g)
    } else {
        old.expanded_spec(g)
    }
}

/// Toggling the same group twice leaves every group folded or unfolded as
/// it was.
pub proof fn law_toggle_group_twice(a: HostListView, b: HostListView, c: HostListView, name: Seq<char>)
    requires
        group_toggled(a, b, name),
        group_toggled(b, c, name),
    ensures
        forall|g: Seq<char>| #[trigger] c.expanded_spec(g) == a.expanded_spec(g),
{
    assert forall|g: Seq<char>| #[trigger] c.expanded_spec(g) == a.expanded_spec(g) by {
        assert(b.expanded_spec(g) == if g == name { !a.expanded_spec(g) } else { a.expanded_spec(g) });
    }
}

/// The host list's state.
pub struct HostListView {
    pub hosts: Vec<HostConfig>,
    pub selected_host_id: Option<HostId>,
    pub last_click: Option<(HostId, u64)>,
    /// The groups folded by the user; every other group is unfolded.
    pub collapsed_groups: Vec<String>,
    pub context_menu_host: Option<HostConfig>,
    /// The dialog that creates or edits a host.
    pub connection_dialog: Option<HostConnectionDialog>,
    /// The confirmation of a deletion.
    pub delete_dialog: Option<DeleteConfirmDialog>,
    pub pending_delete: Option<(HostId, String)>,
}

impl HostListView {
    /// The hosts, in the order they were loaded and added.
    pub open spec fn hosts_spec(&self) -> Seq<HostConfig> {
        self.hosts@
    }

    /// The selected host.
    pub open spec fn selected_spec(&self) -> Option<HostId> {
        self.selected_host_id
    }

    /// The last single click: on which host, and when.
    pub open spec fn last_click_spec(&self) -> Option<(HostId, u64)> {
        self.last_click
    }

    /// Whether the group `g` is unfolded.
    pub open spec fn expanded_spec(&self, g: Seq<char>) -> bool {
        !self.folded_spec(g)
    }

    /// Whether the group `g` is folded.
    pub open spec fn folded_spec(&self, g: Seq<char>) -> bool {
        exists|k: int| 0 <= k < self.collapsed_groups@.len() && (#[trigger] self.collapsed_groups@[k])@ == g
    }

    /// The host whose context menu is shown.
    pub open spec fn context_menu_spec(&self) -> Option<HostConfig> {
        self.context_menu_host
    }

    /// The host whose deletion awaits confirmation.
    pub open spec fn pending_delete_spec(&self) -> Option<(HostId, String)> {
        self.pending_delete
    }

    /// Well-formedness: a folded group is recorded once.
    pub open spec fn wf(&self) -> bool {
        forall|a: int, b: int|
            0 <= a < b < self.collapsed_groups@.len() ==> self.collapsed_groups@[a]@ != self.collapsed_groups@[b]@
    }

    /// An empty list with every group unfolded and nothing selected.
    pub fn new() -> (r: HostListView)
        ensures
            r.wf(),
            r.hosts_spec().len() == 0,
            r.selected_spec() is None,
            r.last_click_spec() is None,
            forall|g: Seq<char>| r.expanded_spec(g),
            r.context_menu_spec() is None,
            r.connection_dialog is None,
            r.delete_dialog is None,
            r.pending_delete_spec() is None,
    {
        HostListView {
            hosts: Vec::new(),
            selected_host_id: None,
            last_click: None,
            collapsed_groups: Vec::new(),
            context_menu_host: None,
            connection_dialog: None,
            delete_dialog: None,
            pending_delete: None,
        }
    }

    /// Replaces the hosts with those loaded from the store.
    pub fn set_hosts(&mut self, hosts: Vec<HostConfig>)
        requires
            old(self).wf(),
        ensures
            final(self).wf(),
            final(self).hosts_spec() == hosts@,
            final(self).selected_spec() == old(self).selected_spec(),
            final(self).last_click_spec() == old(self).last_click_spec(),
    {
        self.hosts = hosts;
    }

    /// The hosts.
    pub fn hosts(&self) -> (r: &Vec<HostConfig>)
        ensures
            r@ == self.hosts_spec(),
    {
        &self.hosts
    }

    /// The number of hosts.
    pub fn host_count(&self) -> (r: usize)
        ensures
            r == self.hosts_spec().len(),
    {
        self.hosts.len()
    }

    /// Selects the host `host_id`.
    pub fn select_host(&mut self, host_id: HostId)
        requires
            old(self).wf(),
        ensures
            final(self).wf(),
            final(self).selected_spec() == Some(host_id),
            final(self).hosts_spec() == old(self).hosts_spec(),
            final(self).last_click_spec() == old(self).last_click_spec(),
    {
        self.selected_host_id = Some(host_id);
    }

    /// The selected host: the first with the selected identifier.
    pub fn selected_host(&self) -> (r: Option<HostConfig>)
        ensures
            match self.selected_spec() {
                None => r is None,
                Some(id) => match r {
                    Some(h) => exists|i: int| first_with_id(self.hosts_spec(), Some(id), i) && self.hosts_spec()[i] == h,
                    None => none_with_id(self.hosts_spec(), Some(id)),
                },
            },
    {
        match self.selected_host_id {
            None => None,
            Some(id) => match host_index(&self.hosts, Some(id)) {
                Some(i) => {
                    let h = self.hosts[i].clone();
                    proof {
                        assert(first_with_id(self.hosts_spec(), Some(id), i as int) && self.hosts_spec()[i as int] == h);
                    }
                    Some(h)
                },
                None => None,
            },
        }
    }

    /// A click on `host` at `now_ms`. A host without identifier is
    /// ignored. A second click on the same host within `DOUBLE_CLICK_MS`
    /// asks to connect to it and forgets the click; any other click selects
    /// the host and is remembered.
    pub fn handle_host_click(&mut self, host: &HostConfig, now_ms: u64) -> (r: Option<HostListEvent>)
        requires
            old(self).wf(),
        ensures
            final(self).wf(),
            final(self).hosts_spec() == old(self).hosts_spec(),
            match host.id {
                None => r is None && final(self).selected_spec() == old(self).selected_spec()
                    && final(self).last_click_spec() == old(self).last_click_spec(),
                Some(id) => if is_double_click(old(self).last_click_spec(), id, now_ms) {
                    &&& r == Some(HostListEvent::ConnectRequested(*host))
                    &&& final(self).last_click_spec() is None
                    &&& final(self).selected_spec() == old(self).selected_spec()
                } else {
                    &&& r is None
                    &&& final(self).selected_spec() == Some(id)
                    &&& final(self).last_click_spec() == Some((id, now_ms))
                },
            },
    {
        let host_id = match host.id {
            Some(id) => id,
            None => {
                return None;
            },
        };
        let is_double = match self.last_click {
            Some((last_id, last_time)) => last_id == host_id && (if now_ms >= last_time {
                now_ms - last_time
            } else {
                0
            }) < DOUBLE_CLICK_MS,
            None => false,
        };
        if is_double {
            self.last_click = None;
            Some(HostListEvent::ConnectRequested(host.clone()))
        } else {
            self.select_host(host_id);
            self.last_click = Some((host_id, now_ms));
            None
        }
    }

    /// Folds the group `group_name` when it is unfolded, and unfolds it
    /// otherwise.
    pub fn toggle_group(&mut self, group_name: &str)
        requires
            old(self).wf(),
        ensures
            final(self).wf(),
            group_toggled(*old(self), *final(self), group_name@),
            final(self).hosts_spec() == old(self).hosts_spec(),
            final(self).selected_spec() == old(self).selected_spec(),
    {
        let ghost before = self.collapsed_groups@;
        match name_index(&self.collapsed_groups, group_name) {
            Some(k) => {
                self.collapsed_groups.remove(k);
                proof {
                    let n = self.collapsed_groups@;
                    assert forall|a: int| 0 <= a < n.len() implies #[trigger] n[a] == before[
                        if a < k { a } else { a + 1 }
                    ] by {}
                    assert forall|g: Seq<char>| #[trigger] self.folded_spec(g) == if g == group_name@ {
                        !(exists|j: int| 0 <= j < before.len() && (#[trigger] before[j])@ == g)
                    } else {
                        exists|j: int| 0 <= j < before.len() && (#[trigger] before[j])@ == g
                    } by {
                        if g == group_name@ {
                            assert(before[k as int]@ == g);
                            if exists|a: int| 0 <= a < n.len() && (#[trigger] n[a])@ == g {
                                let a = choose|a: int| 0 <= a < n.len() && (#[trigger] n[a])@ == g;
                                let a2 = if a < k { a } else { a + 1 };
                                assert(n[a] == before[a2]);
                            }
                        } else {
                            if exists|j: int| 0 <= j < before.len() && (#[trigger] before[j])@ == g {
                                let j = choose|j: int| 0 <= j < before.len() && (#[trigger] before[j])@ == g;
                                assert(j != k);
                                let a = if j < k { j } else { j - 1 };
                                assert(n[a] == before[j]);
                            }
                            if exists|a: int| 0 <= a < n.len() && (#[trigger] n[a])@ == g {
                                let a = choose|a: int| 0 <= a < n.len() && (#[trigger] n[a])@ == g;
                                let a2 = if a < k { a } else { a + 1 };
                                assert(n[a] == before[a2]);
                            }
                        }
                    }
                    assert forall|a: int, b: int| 0 <= a < b < n.len() implies n[a]@ != n[b]@ by {
                        let a2 = if a < k { a } else { a + 1 };
                        let b2 = if b < k { b } else { b + 1 };
                        assert(n[a] == before[a2]);
                        assert(n[b] == before[b2]);
                    }
                }
            },
            None => {
                self.collapsed_groups.push(group_name.to_string());
                proof {
                    let n = self.collapsed_groups@;
                    assert(n[before.len() as int]@ == group_name@);
                    assert forall|g: Seq<char>| #[trigger] self.folded_spec(g) == if g == group_name@ {
                        !(exists|j: int| 0 <= j < before.len() && (#[trigger] before[j])@ == g)
                    } else {
                        exists|j: int| 0 <= j < before.len() && (#[trigger] before[j])@ == g
                    } by {
                        if exists|j: int| 0 <= j < before.len() && (#[trigger] before[j])@ == g {
                            let j = choose|j: int| 0 <= j < before.len() && (#[trigger] before[j])@ == g;
                            assert(n[j] == before[j]);
                        }
                        if exists|a: int| 0 <= a < n.len() && (#[trigger] n[a])@ == g {
                            let a = choose|a: int| 0 <= a < n.len() && (#[trigger] n[a])@ == g;
                            if a < before.len() {
                                assert(n[a] == before[a]);
                            }
                        }
                    }
                    assert forall|a: int, b: int| 0 <= a < b < n.len() implies n[a]@ != n[b]@ by {
                        assert(n[a] == before[a]);
                        if b < before.len() {
                            assert(n[b] == before[b]);
                        }
                    }
                }
            },
        }
    }

    /// Whether the group `group_name` is unfolded.
    pub fn is_group_expanded(&self, group_name: &str) -> (r: bool)
        ensures
            r == self.expanded_spec(group_name@),
    {
        match name_index(&self.collapsed_groups, group_name) {
            Some(k) => {
                proof {
                    assert(self.collapsed_groups@[k as int]@ == group_name@);
                }
                false
            },
            None => true,
        }
    }

    /// The hosts by group: each group once, in ascending order of name,
    /// with its hosts in list order.
    pub fn groups(&self) -> (r: Vec<(String, Vec<HostConfig>)>)
        ensures
            groups_of_prefix(r@.map_values(|e: (String, Vec<HostConfig>)| e.0@), self.hosts_spec(), self.hosts_spec().len() as int),
            forall|a: int|
                0 <= a < r@.len() ==> (#[trigger] r@[a]).1@ == hosts_of_group(self.hosts_spec(), r@[a].0@),
    {
        let names = group_names(&self.hosts);
        let mut r: Vec<(String, Vec<HostConfig>)> = Vec::new();
        let mut k: usize = 0;
        while k < names.len()
            invariant
                0 <= k <= names@.len(),
                r@.len() == k,
                forall|a: int| 0 <= a < k ==> (#[trigger] r@[a]).0@ == names@[a]@,
                forall|a: int| 0 <= a < k ==> (#[trigger] r@[a]).1@ == hosts_of_group(self.hosts@, names@[a]@),
            decreases names@.len() - k,
        {
            let members = hosts_in_group(&self.hosts, names[k].as_str());
            r.push((names[k].clone(), members));
            k = k + 1;
        }
        proof {
            assert(r@.map_values(|e: (String, Vec<HostConfig>)| e.0@) =~= texts(names@));
        }
        r
    }

    /// Shows the context menu of `host`.
    pub fn show_context_menu(&mut self, host: &HostConfig)
        requires
            old(self).wf(),
        ensures
            final(self).wf(),
            final(self).context_menu_spec() == Some(*host),
            final(self).hosts_spec() == old(self).hosts_spec(),
    {
        self.context_menu_host = Some(host.clone());
    }

    /// Hides the context menu.
    pub fn hide_context_menu(&mut self)
        requires
            old(self).wf(),
        ensures
            final(self).wf(),
            final(self).context_menu_spec() is None,
            final(self).hosts_spec() == old(self).hosts_spec(),
    {
        self.context_menu_host = None;
    }

    /// Opens the dialog that creates a host.
    pub fn handle_new_host(&mut self)
        requires
            old(self).wf(),
        ensures
            final(self).wf(),
            final(self).connection_dialog matches Some(d) && d.mode == DialogMode::Create && d.original_config is None,
            final(self).hosts_spec() == old(self).hosts_spec(),
    {
        self.connection_dialog = Some(HostConnectionDialog::new_create());
    }

    /// Opens the dialog that edits `host`, with its stored password.
    pub fn handle_edit_host(&mut self, host: &HostConfig, stored_password: Option<String>)
        requires
            old(self).wf(),
        ensures
            final(self).wf(),
            final(self).connection_dialog matches Some(d) && d.mode == DialogMode::Edit && d.original_config == Some(
                *host,
            ),
            final(self).hosts_spec() == old(self).hosts_spec(),
    {
        self.connection_dialog = Some(HostConnectionDialog::new_edit(host.clone(), stored_password));
    }

    /// Closes the host dialog, whether it was saved or cancelled; answers
    /// whether it was creating a host.
    pub fn close_dialog(&mut self) -> (r: bool)
        requires
            old(self).wf(),
        ensures
            final(self).wf(),
            r == (old(self).connection_dialog matches Some(d) && d.mode == DialogMode::Create),
            final(self).connection_dialog is None,
            final(self).hosts_spec() == old(self).hosts_spec(),
    {
        let creating = match &self.connection_dialog {
            Some(d) => match d.mode {
                DialogMode::Create => true,
                DialogMode::Edit => false,
            },
            None => false,
        };
        self.connection_dialog = None;
        creating
    }

    /// The store created `config` under `new_id`: it joins the list, last.
    pub fn host_created(&mut self, config: HostConfig, new_id: HostId)
        requires
            old(self).wf(),
        ensures
            final(self).wf(),
            final(self).hosts_spec() == old(self).hosts_spec().push(HostConfig { id: Some(new_id), ..config }),
            final(self).selected_spec() == old(self).selected_spec(),
    {
        let mut saved = config;
        saved.id = Some(new_id);
        self.hosts.push(saved);
    }

    /// The store updated `config`: it replaces the first host with its
    /// identifier, if any.
    pub fn host_updated(&mut self, config: HostConfig)
        requires
            old(self).wf(),
        ensures
            final(self).wf(),
            forall|i: int|
                first_with_id(old(self).hosts_spec(), config.id, i) ==> final(self).hosts_spec()
                    == old(self).hosts_spec().update(i, config),
            none_with_id(old(self).hosts_spec(), config.id) ==> final(self).hosts_spec() == old(
                self,
            ).hosts_spec(),
            final(self).selected_spec() == old(self).selected_spec(),
    {
        match host_index(&self.hosts, config.id) {
            Some(i) => {
                self.hosts.set(i, config);
            },
            None => {},
        }
    }

    /// The store deleted the host `host_id`: every host with that
    /// identifier leaves the list.
    pub fn host_deleted(&mut self, host_id: HostId)
        requires
            old(self).wf(),
        ensures
            final(self).wf(),
            final(self).hosts_spec() == old(self).hosts_spec().filter(|h: HostConfig| h.id != Some(host_id)),
            final(self).selected_spec() == old(self).selected_spec(),
    {
        let ghost pred = |h: HostConfig| h.id != Some(host_id);
        let ghost s = self.hosts@;
        let mut kept: Vec<HostConfig> = Vec::new();
        let mut i: usize = 0;
        while i < self.hosts.len()
            invariant
                s == self.hosts@,
                pred == (|h: HostConfig| h.id != Some(host_id)),
                0 <= i <= s.len(),
                kept@ == s.take(i as int).filter(pred),
            decreases s.len() - i,
        {
            proof {
                assert(s.take(i as int + 1) =~= s.take(i as int).push(s[i as int]));
                lemma_filter_push(s.take(i as int), pred, s[i as int]);
            }
            if self.hosts[i].id != Some(host_id) {
                kept.push(self.hosts[i].clone());
            }
            i = i + 1;
        }
        proof {
            assert(s.take(s.len() as int) =~= s);
        }
        self.hosts = kept;
    }

    /// Asks to confirm deleting `host`; a host without identifier cannot be
    /// deleted and nothing happens.
    pub fn handle_delete_host(&mut self, host: &HostConfig)
        requires
            old(self).wf(),
        ensures
            final(self).wf(),
            final(self).hosts_spec() == old(self).hosts_spec(),
            match host.id {
                Some(id) => {
                    &&& final(self).pending_delete_spec() == Some((id, host.name))
                    &&& final(self).delete_dialog matches Some(d)
                    &&& d.target == (DeleteTarget::Host { id, name: host.name })
                    &&& d.events@.len() == 0
                },
                None => final(self).pending_delete_spec() == old(self).pending_delete_spec()
                    && final(self).delete_dialog == old(self).delete_dialog,
            },
    {
        match host.id {
            Some(id) => {
                self.pending_delete = Some((id, host.name.clone()));
                self.delete_dialog = Some(DeleteConfirmDialog::for_host(id, host.name.clone()));
            },
            None => {},
        }
    }

    /// The confirmation's answer: a confirmed deletion of one host is
    /// reported as done; the caller deletes it from the store. The
    /// confirmation closes either way.
    pub fn on_delete_dialog_event(&mut self, event: &DeleteConfirmEvent) -> (r: Option<HostListEvent>)
        requires
            old(self).wf(),
        ensures
            final(self).wf(),
            r == (match *event {
                DeleteConfirmEvent::Confirmed(DeleteTarget::Host { id, .. }) => Some(HostListEvent::HostDeleted(id)),
                _ => None,
            }),
            final(self).delete_dialog is None,
            final(self).pending_delete_spec() is None,
            final(self).hosts_spec() == old(self).hosts_spec(),
    {
        let r = match event {
            DeleteConfirmEvent::Confirmed(target) => match target.host_id() {
                Some(id) => Some(HostListEvent::HostDeleted(id)),
                None => None,
            },
            DeleteConfirmEvent::Cancelled => None,
        };
        self.delete_dialog = None;
        self.pending_delete = None;
        r
    }

    /// The host whose context menu is shown.
    pub fn context_menu_host(&self) -> (r: Option<&HostConfig>)
        ensures
            match r {
                Some(h) => self.context_menu_spec() == Some(*h),
                None => self.context_menu_spec() is None,
            },
    {
        self.context_menu_host.as_ref()
    }
}

} // verus!
