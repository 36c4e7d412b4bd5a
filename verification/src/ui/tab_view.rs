//! The tab view: the tab bar's settings, and which split view and which
//! terminal views belong to each tab.

use vstd::prelude::*;

use crate::assoc::{
    drop_pane, find, keys, lemma_find_absent, lemma_find_push, lemma_find_unique, lemma_find_without,
    lemma_keys_remove_unique, lemma_unique_remove, set_pane,
};
use crate::ui::split_pane::PaneId;
use crate::ui::tab_manager::TabId;

verus! {

/// The tab view's state, over the types of its split views `S` and
/// terminal views `T`.
pub struct TabView<S, T> {
    split_views: Vec<(TabId, S)>,
    terminal_views: Vec<(TabId, Vec<(PaneId, T)>)>,
    show_new_tab_button: bool,
    show_close_buttons: bool,
    tab_bar_height: u32,
}

impl<S, T> TabView<S, T> {
    /// The split view registered for each tab.
    pub closed spec fn split_views_spec(&self) -> Seq<(TabId, S)> {
        self.split_views@
    }

    /// The terminal views registered for each tab, by pane.
    pub closed spec fn terminal_views_spec(&self) -> Seq<(TabId, Vec<(PaneId, T)>)> {
        self.terminal_views@
    }

    /// Whether the bar has a new-tab button.
    pub closed spec fn new_tab_button_spec(&self) -> bool {
        self.show_new_tab_button
    }

    /// Whether tabs have close buttons.
    pub closed spec fn close_buttons_spec(&self) -> bool {
        self.show_close_buttons
    }

    /// The bar's height, in pixels.
    pub closed spec fn height_spec(&self) -> u32 {
        self.tab_bar_height
    }

    /// Well-formedness: each tab appears at most once in each registry, and
    /// each pane at most once in a tab's terminal views.
    pub closed spec fn wf(&self) -> bool {
        &&& keys(self.split_views@).no_duplicates()
        &&& keys(self.terminal_views@).no_duplicates()
        &&& forall|i: int| 0 <= i < self.terminal_views@.len() ==> keys(
            (#[trigger] self.terminal_views@[i]).1@,
        ).no_duplicates()
    }

    /// An empty view with both kinds of buttons and a 40 pixel bar.
    pub fn new() -> (r: TabView<S, T>)
        ensures
            r.wf(),
            r.split_views_spec().len() == 0,
            r.terminal_views_spec().len() == 0,
            r.new_tab_button_spec(),
            r.close_buttons_spec(),
            r.height_spec() == 40,
    {
        let r = TabView {
            split_views: Vec::new(),
            terminal_views: Vec::new(),
            show_new_tab_button: true,
            show_close_buttons: true,
            tab_bar_height: 40,
        };
        proof {
            assert(keys(r.split_views@) =~= Seq::<TabId>::empty());
            assert(keys(r.terminal_views@) =~= Seq::<TabId>::empty());
        }
        r
    }

    /// With or without the new-tab button.
    pub fn with_new_tab_button(self, show: bool) -> (r: TabView<S, T>)
        requires
            self.wf(),
        ensures
            r.wf(),
            r.new_tab_button_spec() == show,
            r.close_buttons_spec() == self.close_buttons_spec(),
            r.height_spec() == self.height_spec(),
            r.split_views_spec() == self.split_views_spec(),
            r.terminal_views_spec() == self.terminal_views_spec(),
    {
        TabView { show_new_tab_button: show, ..self }
    }

    /// With or without close buttons.
    pub fn with_close_buttons(self, show: bool) -> (r: TabView<S, T>)
        requires
            self.wf(),
        ensures
            r.wf(),
            r.close_buttons_spec() == show,
            r.new_tab_button_spec() == self.new_tab_button_spec(),
            r.height_spec() == self.height_spec(),
            r.split_views_spec() == self.split_views_spec(),
            r.terminal_views_spec() == self.terminal_views_spec(),
    {
        TabView { show_close_buttons: show, ..self }
    }

    /// With a bar `height` pixels high.
    pub fn with_tab_bar_height(self, height: u32) -> (r: TabView<S, T>)
        requires
            self.wf(),
        ensures
            r.wf(),
            r.height_spec() == height,
            r.new_tab_button_spec() == self.new_tab_button_spec(),
            r.close_buttons_spec() == self.close_buttons_spec(),
            r.split_views_spec() == self.split_views_spec(),
            r.terminal_views_spec() == self.terminal_views_spec(),
    {
        TabView { tab_bar_height: height, ..self }
    }

    /// Whether the bar has a new-tab button.
    pub fn show_new_tab_button(&self) -> (r: bool)
        ensures
            r == self.new_tab_button_spec(),
    {
        self.show_new_tab_button
    }

    /// Whether tabs have close buttons.
    pub fn show_close_buttons(&self) -> (r: bool)
        ensures
            r == self.close_buttons_spec(),
    {
        self.show_close_buttons
    }

    /// The bar's height, in pixels.
    pub fn tab_bar_height(&self) -> (r: u32)
        ensures
            r == self.height_spec(),
    {
        self.tab_bar_height
    }

    fn split_index(&self, tab_id: TabId) -> (r: Option<usize>)
        ensures
            match r {
                Some(i) => i < self.split_views@.len() && self.split_views@[i as int].0 == tab_id,
                None => forall|i: int| 0 <= i < self.split_views@.len() ==> self.split_views@[i].0 != tab_id,
            },
    {
        let mut i: usize = 0;
        while i < self.split_views.len()
            invariant
                0 <= i <= self.split_views@.len(),
                forall|k: int| 0 <= k < i ==> self.split_views@[k].0 != tab_id,
            decreases self.split_views@.len() - i,
        {
            if self.split_views[i].0 == tab_id {
                return Some(i);
            }
            i = i + 1;
        }
        None
    }

    /// Registers `split_view` for `tab_id`, replacing an earlier one.
    pub fn register_split_view(&mut self, tab_id: TabId, split_view: S)
        requires
            old(self).wf(),
        ensures
            final(self).wf(),
            forall|j: TabId| #[trigger] find(final(self).split_views_spec(), j) == if j == tab_id {
                Some(split_view)
            } else {
                find(old(self).split_views_spec(), j)
            },
            final(self).terminal_views_spec() == old(self).terminal_views_spec(),
            final(self).new_tab_button_spec() == old(self).new_tab_button_spec(),
            final(self).close_buttons_spec() == old(self).close_buttons_spec(),
            final(self).height_spec() == old(self).height_spec(),
    {
        self.unregister_split_view(tab_id);
        let ghost before = self.split_views@;
        self.split_views.push((tab_id, split_view));
        proof {
            assert forall|j: TabId| #[trigger] find(self.split_views@, j) == if j == tab_id {
                Some(split_view)
            } else {
                find(before, j)
            } by {
                lemma_find_push(before, tab_id, split_view, j);
            }
            assert(keys(self.split_views@) =~= keys(before).push(tab_id));
            assert(!keys(before).contains(tab_id)) by {
                if keys(before).contains(tab_id) {
                    let k = choose|k: int| 0 <= k < keys(before).len() && keys(before)[k] == tab_id;
                    assert(before[k].0 == tab_id);
                }
            }
        }
    }

    /// Forgets the split view of `tab_id`.
    pub fn unregister_split_view(&mut self, tab_id: TabId)
        requires
            old(self).wf(),
        ensures
            final(self).wf(),
            forall|j: TabId| #[trigger] find(final(self).split_views_spec(), j) == if j == tab_id {
                None
            } else {
                find(old(self).split_views_spec(), j)
            },
            forall|i: int| 0 <= i < final(self).split_views_spec().len() ==> (
            #[trigger] final(self).split_views_spec()[i]).0 != tab_id,
            final(self).terminal_views_spec() == old(self).terminal_views_spec(),
            final(self).new_tab_button_spec() == old(self).new_tab_button_spec(),
            final(self).close_buttons_spec() == old(self).close_buttons_spec(),
            final(self).height_spec() == old(self).height_spec(),
    {
        match self.split_index(tab_id) {
            None => {
                proof {
                    assert forall|j: TabId| #[trigger] find(self.split_views@, j) == if j == tab_id {
                        None
                    } else {
                        find(self.split_views@, j)
                    } by {
                        if j == tab_id {
                            lemma_find_absent(self.split_views@, j);
                        }
                    }
                }
            },
            Some(i) => {
                let ghost before = self.split_views@;
                self.split_views.remove(i);
                proof {
                    lemma_unique_remove(before, i as int, tab_id);
                    assert forall|j: TabId| #[trigger] find(self.split_views@, j) == if j == tab_id {
                        None
                    } else {
                        find(before, j)
                    } by {
                        lemma_find_without(before, tab_id, j);
                    }
                    let p = |e: (TabId, S)| e.0 != tab_id;
                    assert forall|k: int| 0 <= k < self.split_views@.len() implies (
                    #[trigger] self.split_views@[k]).0 != tab_id by {
                        lemma_find_without(before, tab_id, tab_id);
                    }
                    lemma_keys_remove_unique(before, i as int);
                }
            },
        }
    }

    /// Forgets the split view of `tab_id`, handing it back.
    pub fn take_split_view(&mut self, tab_id: TabId) -> (r: Option<S>)
        requires
            old(self).wf(),
        ensures
            final(self).wf(),
            r == find(old(self).split_views_spec(), tab_id),
            forall|j: TabId| #[trigger] find(final(self).split_views_spec(), j) == if j == tab_id {
                None
            } else {
                find(old(self).split_views_spec(), j)
            },
            final(self).terminal_views_spec() == old(self).terminal_views_spec(),
            final(self).new_tab_button_spec() == old(self).new_tab_button_spec(),
            final(self).close_buttons_spec() == old(self).close_buttons_spec(),
            final(self).height_spec() == old(self).height_spec(),
    {
        match self.split_index(tab_id) {
            None => {
                proof {
                    lemma_find_absent(self.split_views@, tab_id);
                }
                None
            },
            Some(i) => {
                let ghost before = self.split_views@;
                proof {
                    lemma_find_unique(before, i as int);
                }
                let (_, v) = self.split_views.remove(i);
                proof {
                    lemma_unique_remove(before, i as int, tab_id);
                    assert forall|j: TabId| #[trigger] find(self.split_views@, j) == if j == tab_id {
                        None
                    } else {
                        find(before, j)
                    } by {
                        lemma_find_without(before, tab_id, j);
                    }
                    lemma_keys_remove_unique(before, i as int);
                }
                Some(v)
            },
        }
    }

    /// The split view of `tab_id`.
    pub fn get_split_view(&self, tab_id: TabId) -> (r: Option<&S>)
        requires
            self.wf(),
        ensures
            match r {
                Some(v) => find(self.split_views_spec(), tab_id) == Some(*v),
                None => find(self.split_views_spec(), tab_id) is None,
            },
    {
        match self.split_index(tab_id) {
            Some(i) => {
                proof {
                    lemma_find_unique(self.split_views@, i as int);
                }
                Some(&self.split_views[i].1)
            },
            None => {
                proof {
                    lemma_find_absent(self.split_views@, tab_id);
                }
                None
            },
        }
    }

    /// The split view of the active tab (`active_tab_id`, as the tab
    /// manager reports it).
    pub fn active_split_view(&self, active_tab_id: Option<TabId>) -> (r: Option<&S>)
        requires
            self.wf(),
        ensures
            match active_tab_id {
                Some(id) => match r {
                    Some(v) => find(self.split_views_spec(), id) == Some(*v),
                    None => find(self.split_views_spec(), id) is None,
                },
                None => r is None,
            },
    {
        match active_tab_id {
            Some(id) => self.get_split_view(id),
            None => None,
        }
    }
}

/// The terminal view registered for `pane` in `tab`.
pub open spec fn pane_view<T>(tv: Seq<(TabId, Vec<(PaneId, T)>)>, tab: TabId, pane: PaneId) -> Option<T> {
    match find(tv, tab) {
        Some(panes) => find(panes@, pane),
        None => None,
    }
}

impl<S, T> TabView<S, T> {
    fn terminal_index(&self, tab_id: TabId) -> (r: Option<usize>)
        ensures
            match r {
                Some(i) => i < self.terminal_views@.len() && self.terminal_views@[i as int].0 == tab_id,
                None => forall|i: int| 0 <= i < self.terminal_views@.len() ==> self.terminal_views@[i].0 != tab_id,
            },
    {
        let mut i: usize = 0;
        while i < self.terminal_views.len()
            invariant
                0 <= i <= self.terminal_views@.len(),
                forall|k: int| 0 <= k < i ==> self.terminal_views@[k].0 != tab_id,
            decreases self.terminal_views@.len() - i,
        {
            if self.terminal_views[i].0 == tab_id {
                return Some(i);
            }
            i = i + 1;
        }
        None
    }

    fn take_panes(&mut self, tab_id: TabId) -> (r: Vec<(PaneId, T)>)
        requires
            old(self).wf(),
        ensures
            final(self).wf(),
            forall|i: int| 0 <= i < final(self).terminal_views@.len() ==> (
            #[trigger] final(self).terminal_views@[i]).0 != tab_id,
            forall|j: TabId| j != tab_id ==> #[trigger] find(final(self).terminal_views@, j) == find(
                old(self).terminal_views@,
                j,
            ),
            keys(r@).no_duplicates(),
            forall|p: PaneId| #[trigger] find(r@, p) == match find(old(self).terminal_views@, tab_id) {
                Some(panes) => find(panes@, p),
                None => None,
            },
            final(self).split_views == old(self).split_views,
            final(self).show_new_tab_button == old(self).show_new_tab_button,
            final(self).show_close_buttons == old(self).show_close_buttons,
            final(self).tab_bar_height == old(self).tab_bar_height,
    {
        match self.terminal_index(tab_id) {
            None => {
                proof {
                    lemma_find_absent(self.terminal_views@, tab_id);
                    assert(keys(Seq::<(PaneId, T)>::empty()) =~= Seq::<PaneId>::empty());
                }
                Vec::new()
            },
            Some(i) => {
                let ghost before = self.terminal_views@;
                let (_t, panes) = self.terminal_views.remove(i);
                proof {
                    lemma_find_unique(before, i as int);
                    lemma_unique_remove(before, i as int, tab_id);
                    assert forall|j: TabId| j != tab_id implies #[trigger] find(self.terminal_views@, j) == find(
                        before,
                        j,
                    ) by {
                        lemma_find_without(before, tab_id, j);
                    }
                    lemma_find_without(before, tab_id, tab_id);
                    lemma_keys_remove_unique(before, i as int);
                    assert forall|k: int| 0 <= k < self.terminal_views@.len() implies keys(
                        (#[trigger] self.terminal_views@[k]).1@,
                    ).no_duplicates() by {
                        let k2 = if k < i { k } else { k + 1 };
                        assert(self.terminal_views@[k] == before[k2]);
                    }
                    assert(before[i as int].1 == panes);
                }
                panes
            },
        }
    }

    fn put_panes(&mut self, tab_id: TabId, panes: Vec<(PaneId, T)>)
        requires
            old(self).wf(),
            forall|i: int| 0 <= i < old(self).terminal_views@.len() ==> (
            #[trigger] old(self).terminal_views@[i]).0 != tab_id,
            keys(panes@).no_duplicates(),
        ensures
            final(self).wf(),
            forall|j: TabId| #[trigger] find(final(self).terminal_views@, j) == if j == tab_id {
                Some(panes)
            } else {
                find(old(self).terminal_views@, j)
            },
            final(self).split_views == old(self).split_views,
            final(self).show_new_tab_button == old(self).show_new_tab_button,
            final(self).show_close_buttons == old(self).show_close_buttons,
            final(self).tab_bar_height == old(self).tab_bar_height,
    {
        let ghost before = self.terminal_views@;
        self.terminal_views.push((tab_id, panes));
        proof {
            assert forall|j: TabId| #[trigger] find(self.terminal_views@, j) == if j == tab_id {
                Some(panes)
            } else {
                find(before, j)
            } by {
                lemma_find_push(before, tab_id, panes, j);
            }
            assert(keys(self.terminal_views@) =~= keys(before).push(tab_id));
            assert(!keys(before).contains(tab_id)) by {
                if keys(before).contains(tab_id) {
                    let k = choose|k: int| 0 <= k < keys(before).len() && keys(before)[k] == tab_id;
                    assert(before[k].0 == tab_id);
                }
            }
            assert forall|k: int| 0 <= k < self.terminal_views@.len() implies keys(
                (#[trigger] self.terminal_views@[k]).1@,
            ).no_duplicates() by {
                if k < before.len() {
                    assert(self.terminal_views@[k] == before[k]);
                }
            }
        }
    }

    /// Registers `view` as the terminal view of `pane_id` in `tab_id`,
    /// replacing an earlier one.
    pub fn register_terminal_view(&mut self, tab_id: TabId, pane_id: PaneId, view: T)
        requires
            old(self).wf(),
        ensures
            final(self).wf(),
            forall|t: TabId, p: PaneId| #[trigger] pane_view(final(self).terminal_views_spec(), t, p) == if t
                == tab_id && p == pane_id {
                Some(view)
            } else {
                pane_view(old(self).terminal_views_spec(), t, p)
            },
            final(self).split_views_spec() == old(self).split_views_spec(),
            final(self).new_tab_button_spec() == old(self).new_tab_button_spec(),
            final(self).close_buttons_spec() == old(self).close_buttons_spec(),
            final(self).height_spec() == old(self).height_spec(),
    {
        let panes = self.take_panes(tab_id);
        let panes = set_pane(panes, pane_id, view);
        self.put_panes(tab_id, panes);
    }

    /// Forgets the terminal view of `pane_id` in `tab_id`.
    pub fn unregister_terminal_view(&mut self, tab_id: TabId, pane_id: PaneId)
        requires
            old(self).wf(),
        ensures
            final(self).wf(),
            forall|t: TabId, p: PaneId| #[trigger] pane_view(final(self).terminal_views_spec(), t, p) == if t
                == tab_id && p == pane_id {
                None
            } else {
                pane_view(old(self).terminal_views_spec(), t, p)
            },
            final(self).split_views_spec() == old(self).split_views_spec(),
            final(self).new_tab_button_spec() == old(self).new_tab_button_spec(),
            final(self).close_buttons_spec() == old(self).close_buttons_spec(),
            final(self).height_spec() == old(self).height_spec(),
    {
        match self.terminal_index(tab_id) {
            None => {
                proof {
                    lemma_find_absent(self.terminal_views@, tab_id);
                }
            },
            Some(_) => {
                let panes = self.take_panes(tab_id);
                let panes = drop_pane(panes, pane_id);
                self.put_panes(tab_id, panes);
            },
        }
    }

    /// Forgets every terminal view of `tab_id`.
    pub fn unregister_all_terminal_views(&mut self, tab_id: TabId)
        requires
            old(self).wf(),
        ensures
            final(self).wf(),
            find(final(self).terminal_views_spec(), tab_id) is None,
            forall|t: TabId| t != tab_id ==> #[trigger] find(final(self).terminal_views_spec(), t) == find(
                old(self).terminal_views_spec(),
                t,
            ),
            final(self).split_views_spec() == old(self).split_views_spec(),
            final(self).new_tab_button_spec() == old(self).new_tab_button_spec(),
            final(self).close_buttons_spec() == old(self).close_buttons_spec(),
            final(self).height_spec() == old(self).height_spec(),
    {
        let _ = self.take_panes(tab_id);
        proof {
            lemma_find_absent(self.terminal_views@, tab_id);
        }
    }

    /// The terminal views of `tab_id`, by pane.
    pub fn get_terminal_views(&self, tab_id: TabId) -> (r: Option<&Vec<(PaneId, T)>>)
        requires
            self.wf(),
        ensures
            match r {
                Some(v) => find(self.terminal_views_spec(), tab_id) == Some(*v),
                None => find(self.terminal_views_spec(), tab_id) is None,
            },
    {
        match self.terminal_index(tab_id) {
            Some(i) => {
                proof {
                    lemma_find_unique(self.terminal_views@, i as int);
                }
                Some(&self.terminal_views[i].1)
            },
            None => {
                proof {
                    lemma_find_absent(self.terminal_views@, tab_id);
                }
                None
            },
        }
    }
}

} // verus!
