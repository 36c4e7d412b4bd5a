//! The terminal panes of the window: for each pane, its terminal view, the
//! coordinator of its session and the tab it belongs to.

use vstd::prelude::*;

use crate::assoc::{
    find, keys, lemma_find_absent, lemma_find_unique, lemma_find_without, lemma_keys_remove_unique,
    lemma_unique_remove, pane_index, set_pane,
};
use crate::ui::split_pane::PaneId;
use crate::ui::tab_manager::TabId;

verus! {

/// What is kept of a terminal pane, over the types of its terminal view
/// `V` and of its session's coordinator `C`.
#[derive(Clone)]
pub struct TerminalPaneData<V, C> {
    pub terminal_view: V,
    pub coordinator: C,
    pub tab_id: TabId,
}

/// The entries of `s` whose pane belongs to `tab`, in order.
pub open spec fn on_tab<V, C>(s: Seq<(PaneId, TerminalPaneData<V, C>)>, tab: TabId) -> Seq<
    (PaneId, TerminalPaneData<V, C>),
> {
    s.filter(|e: (PaneId, TerminalPaneData<V, C>)| e.1.tab_id == tab)
}

/// The entries of `s` whose pane belongs to another tab, in order.
pub open spec fn off_tab<V, C>(s: Seq<(PaneId, TerminalPaneData<V, C>)>, tab: TabId) -> Seq<
    (PaneId, TerminalPaneData<V, C>),
> {
    s.filter(|e: (PaneId, TerminalPaneData<V, C>)| e.1.tab_id != tab)
}

/// The terminal panes, each registered once.
pub struct TerminalPaneManager<V, C> {
    terminal_panes: Vec<(PaneId, TerminalPaneData<V, C>)>,
}

impl<V, C> TerminalPaneManager<V, C> {
    /// The registered panes, in the order they were added.
    pub closed spec fn panes_spec(&self) -> Seq<(PaneId, TerminalPaneData<V, C>)> {
        self.terminal_panes@
    }

    /// Well-formedness: each pane is registered at most once.
    pub closed spec fn wf(&self) -> bool {
        keys(self.terminal_panes@).no_duplicates()
    }

    /// A manager without panes.
    pub fn new() -> (r: TerminalPaneManager<V, C>)
        ensures
            r.wf(),
            r.panes_spec().len() == 0,
    {
        let r = TerminalPaneManager { terminal_panes: Vec::new() };
        proof {
            assert(keys(r.terminal_panes@) =~= Seq::<PaneId>::empty());
        }
        r
    }

    /// Registers `data` for `pane_id`, replacing what was registered for it.
    pub fn add_pane(&mut self, pane_id: PaneId, data: TerminalPaneData<V, C>)
        requires
            old(self).wf(),
        ensures
            final(self).wf(),
            forall|p: PaneId| #[trigger] find(final(self).panes_spec(), p) == if p == pane_id {
                Some(data)
            } else {
                find(old(self).panes_spec(), p)
            },
    {
        let mut taken: Vec<(PaneId, TerminalPaneData<V, C>)> = Vec::new();
        std::mem::swap(&mut taken, &mut self.terminal_panes);
        self.terminal_panes = set_pane(taken, pane_id, data);
    }

    /// Forgets `pane_id`, handing back what was registered for it.
    pub fn remove_pane(&mut self, pane_id: PaneId) -> (r: Option<TerminalPaneData<V, C>>)
        requires
            old(self).wf(),
        ensures
            final(self).wf(),
            r == find(old(self).panes_spec(), pane_id),
            forall|p: PaneId| #[trigger] find(final(self).panes_spec(), p) == if p == pane_id {
                None
            } else {
                find(old(self).panes_spec(), p)
            },
    {
        match pane_index(&self.terminal_panes, pane_id) {
            None => {
                proof {
                    lemma_find_absent(self.terminal_panes@, pane_id);
                }
                None
            },
            Some(i) => {
                let ghost before = self.terminal_panes@;
                proof {
                    lemma_find_unique(before, i as int);
                }
                let (_, data) = self.terminal_panes.remove(i);
                proof {
                    lemma_unique_remove(before, i as int, pane_id);
                    assert forall|p: PaneId| #[trigger] find(self.terminal_panes@, p) == if p == pane_id {
                        None
                    } else {
                        find(before, p)
                    } by {
                        lemma_find_without(before, pane_id, p);
                    }
                    lemma_keys_remove_unique(before, i as int);
                }
                Some(data)
            },
        }
    }

    /// The terminal view of `pane_id`.
    pub fn get_terminal_view(&self, pane_id: PaneId) -> (r: Option<&V>)
        requires
            self.wf(),
        ensures
            match r {
                Some(v) => find(self.panes_spec(), pane_id) is Some && *v == find(
                    self.panes_spec(),
                    pane_id,
                )->0.terminal_view,
                None => find(self.panes_spec(), pane_id) is None,
            },
    {
        match pane_index(&self.terminal_panes, pane_id) {
            Some(i) => {
                proof {
                    lemma_find_unique(self.terminal_panes@, i as int);
                }
                Some(&self.terminal_panes[i].1.terminal_view)
            },
            None => {
                proof {
                    lemma_find_absent(self.terminal_panes@, pane_id);
                }
                None
            },
        }
    }

    /// The coordinator of the session in `pane_id`.
    pub fn get_coordinator(&self, pane_id: PaneId) -> (r: Option<&C>)
        requires
            self.wf(),
        ensures
            match r {
                Some(c) => find(self.panes_spec(), pane_id) is Some && *c == find(
                    self.panes_spec(),
                    pane_id,
                )->0.coordinator,
                None => find(self.panes_spec(), pane_id) is None,
            },
    {
        match pane_index(&self.terminal_panes, pane_id) {
            Some(i) => {
                proof {
                    lemma_find_unique(self.terminal_panes@, i as int);
                }
                Some(&self.terminal_panes[i].1.coordinator)
            },
            None => {
                proof {
                    lemma_find_absent(self.terminal_panes@, pane_id);
                }
                None
            },
        }
    }

    /// Whether any terminal pane is registered.
    pub fn is_connected(&self) -> (r: bool)
        ensures
            r == (self.panes_spec().len() > 0),
    {
        self.terminal_panes.len() > 0
    }

    /// The panes of `tab`, in the order they were added.
    pub fn pane_ids_for_tab(&self, tab_id: TabId) -> (r: Vec<PaneId>)
        ensures
            r@ == keys(on_tab(self.panes_spec(), tab_id)),
    {
        let ghost s = self.terminal_panes@;
        let ghost pred = |e: (PaneId, TerminalPaneData<V, C>)| e.1.tab_id == tab_id;
        let mut r: Vec<PaneId> = Vec::new();
        let mut i: usize = 0;
        while i < self.terminal_panes.len()
            invariant
                s == self.terminal_panes@,
                pred == (|e: (PaneId, TerminalPaneData<V, C>)| e.1.tab_id == tab_id),
                0 <= i <= s.len(),
                r@ == keys(s.take(i as int).filter(pred)),
            decreases s.len() - i,
        {
            proof {
                assert(s.take(i as int + 1) =~= s.take(i as int).push(s[i as int]));
                crate::seqs::lemma_filter_push(s.take(i as int), pred, s[i as int]);
            }
            if self.terminal_panes[i].1.tab_id == tab_id {
                proof {
                    let f = s.take(i as int).filter(pred);
                    assert(keys(f.push(s[i as int])) =~= keys(f).push(s[i as int].0));
                }
                r.push(self.terminal_panes[i].0);
            }
            i = i + 1;
        }
        proof {
            assert(s.take(s.len() as int) =~= s);
        }
        r
    }

    /// Forgets every pane of `tab`, handing back what was registered for
    /// them, in the order they were added; the caller closes their
    /// sessions.
    pub fn cleanup_tab(&mut self, tab_id: TabId) -> (r: Vec<TerminalPaneData<V, C>>)
        requires
            old(self).wf(),
        ensures
            final(self).wf(),
            final(self).panes_spec() == off_tab(old(self).panes_spec(), tab_id),
            r@ == on_tab(old(self).panes_spec(), tab_id).map_values(
                |e: (PaneId, TerminalPaneData<V, C>)| e.1,
            ),
    {
        let ghost orig = self.terminal_panes@;
        let ghost keep = |e: (PaneId, TerminalPaneData<V, C>)| e.1.tab_id != tab_id;
        let ghost drop = |e: (PaneId, TerminalPaneData<V, C>)| e.1.tab_id == tab_id;
        let ghost second = |e: (PaneId, TerminalPaneData<V, C>)| e.1;
        let mut rest: Vec<(PaneId, TerminalPaneData<V, C>)> = Vec::new();
        std::mem::swap(&mut rest, &mut self.terminal_panes);
        let mut kept: Vec<(PaneId, TerminalPaneData<V, C>)> = Vec::new();
        let mut removed: Vec<TerminalPaneData<V, C>> = Vec::new();
        while rest.len() > 0
            invariant
                keep == (|e: (PaneId, TerminalPaneData<V, C>)| e.1.tab_id != tab_id),
                drop == (|e: (PaneId, TerminalPaneData<V, C>)| e.1.tab_id == tab_id),
                second == (|e: (PaneId, TerminalPaneData<V, C>)| e.1),
                keys(orig).no_duplicates(),
                rest.len() <= orig.len(),
                rest@ == orig.subrange(orig.len() - rest.len(), orig.len() as int),
                kept@ == orig.take(orig.len() - rest.len()).filter(keep),
                removed@ == orig.take(orig.len() - rest.len()).filter(drop).map_values(second),
                keys(kept@).no_duplicates(),
                forall|j: int, m: int|
                    0 <= j < kept@.len() && orig.len() - rest.len() <= m < orig.len() ==> (
                    #[trigger] kept@[j]).0 != (#[trigger] orig[m]).0,
            decreases rest.len(),
        {
            let ghost k: int = orig.len() - rest.len();
            let e = rest.remove(0);
            proof {
                assert(e == orig[k]);
                assert(rest@ =~= orig.subrange(k + 1, orig.len() as int));
                assert(orig.take(k + 1) =~= orig.take(k).push(orig[k]));
                crate::seqs::lemma_filter_push(orig.take(k), keep, orig[k]);
                crate::seqs::lemma_filter_push(orig.take(k), drop, orig[k]);
            }
            if e.1.tab_id == tab_id {
                let ghost before = removed@;
                removed.push(e.1);
                proof {
                    let f = orig.take(k).filter(drop);
                    assert(f.push(orig[k]).map_values(second) =~= f.map_values(second).push(orig[k].1));
                }
            } else {
                let ghost before = kept@;
                kept.push(e);
                proof {
                    assert(keys(kept@) =~= keys(before).push(orig[k].0));
                    assert forall|j: int, m: int|
                        0 <= j < kept@.len() && k + 1 <= m < orig.len() implies (
                        #[trigger] kept@[j]).0 != (#[trigger] orig[m]).0 by {
                        if j == before.len() {
                            assert(keys(orig)[k] != keys(orig)[m]);
                        } else {
                            assert(kept@[j] == before[j]);
                        }
                    }
                    assert forall|a: int, b: int|
                        0 <= a < keys(kept@).len() && 0 <= b < keys(kept@).len() && a != b implies keys(
                        kept@,
                    )[a] != keys(kept@)[b] by {
                        if a == before.len() {
                            assert(before[b].0 != orig[k].0);
                        } else if b == before.len() {
                            assert(before[a].0 != orig[k].0);
                        } else {
                            assert(keys(before)[a] != keys(before)[b]);
                        }
                    }
                }
            }
        }
        proof {
            assert(orig.take(orig.len() as int) =~= orig);
        }
        self.terminal_panes = kept;
        removed
    }
}

impl<V, C: Clone> TerminalPaneManager<V, C> {
    /// The coordinators of the panes of `tab`, in the order the panes were
    /// added.
    pub fn get_coordinators_for_tab(&self, tab_id: TabId) -> (r: Vec<C>)
        ensures
            r@.len() == on_tab(self.panes_spec(), tab_id).len(),
            forall|j: int|
                0 <= j < r@.len() ==> cloned(
                    on_tab(self.panes_spec(), tab_id)[j].1.coordinator,
                    #[trigger] r@[j],
                ),
    {
        let ghost s = self.terminal_panes@;
        let ghost pred = |e: (PaneId, TerminalPaneData<V, C>)| e.1.tab_id == tab_id;
        let mut r: Vec<C> = Vec::new();
        let mut i: usize = 0;
        while i < self.terminal_panes.len()
            invariant
                s == self.terminal_panes@,
                pred == (|e: (PaneId, TerminalPaneData<V, C>)| e.1.tab_id == tab_id),
                0 <= i <= s.len(),
                r@.len() == s.take(i as int).filter(pred).len(),
                forall|j: int|
                    0 <= j < r@.len() ==> cloned(
                        s.take(i as int).filter(pred)[j].1.coordinator,
                        #[trigger] r@[j],
                    ),
            decreases s.len() - i,
        {
            proof {
                assert(s.take(i as int + 1) =~= s.take(i as int).push(s[i as int]));
                crate::seqs::lemma_filter_push(s.take(i as int), pred, s[i as int]);
            }
            if self.terminal_panes[i].1.tab_id == tab_id {
                let c = self.terminal_panes[i].1.coordinator.clone();
                r.push(c);
            }
            i = i + 1;
        }
        proof {
            assert(s.take(s.len() as int) =~= s);
        }
        r
    }
}

} // verus!
