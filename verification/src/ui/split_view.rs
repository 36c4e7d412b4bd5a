//! The split view: which terminal view shows each pane, and dragging a
//! separator to change a split's ratio.

use vstd::prelude::*;

use crate::assoc::{drop_pane, find, keys, lemma_find_absent, lemma_find_unique, pane_index, set_pane};
use crate::ui::split_pane::{
    clamp_ratio, map_ratio, ratio_of, shifted_ratio, PaneId, SplitDirection, SplitManager,
    MAX_RATIO, MIN_RATIO,
};

verus! {

/// A separator being dragged.
#[derive(Debug, Clone, Copy, PartialEq, Eq, Structural)]
pub struct DragState {
    /// The split whose separator is dragged.
    pub split_id: PaneId,
    pub direction: SplitDirection,
    /// Where the pointer was, in pixels.
    pub start_x: i32,
    pub start_y: i32,
    /// The ratio then, in thousandths.
    pub start_ratio: u16,
    /// The size of the split along its direction, in pixels.
    pub container_size: u32,
}

/// The size a split is taken to have while its separator is dragged:
/// 800 pixels wide side by side, 600 high stacked.
pub open spec fn default_container_size(direction: SplitDirection) -> u32 {
    match direction {
        SplitDirection::Horizontal => 800,
        SplitDirection::Vertical => 600,
    }
}

/// The ratio that dragging to `(x, y)` gives: the start ratio moved by the
/// pointer's travel along the split, as thousandths of the split's size
/// (rounded toward zero), kept within the allowed ratios.
pub open spec fn dragged_ratio(d: DragState, x: i32, y: i32) -> int {
    let travel: int = match d.direction {
        SplitDirection::Horizontal => x - d.start_x,
        SplitDirection::Vertical => y - d.start_y,
    };
    let step: int = if travel >= 0 {
        (travel * 1000) / (d.container_size as int)
    } else {
        -((-travel * 1000) / (d.container_size as int))
    };
    clamp_ratio(d.start_ratio + step)
}

/// The split view's state, over the type of its terminal views `T`.
pub struct SplitView<T> {
    terminal_views: Vec<(PaneId, T)>,
    drag_state: Option<DragState>,
}

impl<T> SplitView<T> {
    /// The terminal view of each pane.
    pub closed spec fn views_spec(&self) -> Seq<(PaneId, T)> {
        self.terminal_views@
    }

    /// The drag under way.
    pub closed spec fn drag_spec(&self) -> Option<DragState> {
        self.drag_state
    }

    /// Well-formedness: a pane has at most one view.
    pub closed spec fn wf(&self) -> bool {
        keys(self.terminal_views@).no_duplicates()
    }

    /// A view with no terminal views and no drag.
    pub fn new() -> (r: SplitView<T>)
        ensures
            r.wf(),
            r.views_spec().len() == 0,
            r.drag_spec() is None,
    {
        let r = SplitView { terminal_views: Vec::new(), drag_state: None };
        proof {
            assert(keys(r.terminal_views@) =~= Seq::<PaneId>::empty());
        }
        r
    }

    /// Registers `view` as the terminal view of `pane_id`, replacing an
    /// earlier one.
    pub fn register_terminal_view(&mut self, pane_id: PaneId, view: T)
        requires
            old(self).wf(),
        ensures
            final(self).wf(),
            forall|p: PaneId| #[trigger] find(final(self).views_spec(), p) == if p == pane_id {
                Some(view)
            } else {
                find(old(self).views_spec(), p)
            },
            final(self).drag_spec() == old(self).drag_spec(),
    {
        let mut taken: Vec<(PaneId, T)> = Vec::new();
        std::mem::swap(&mut taken, &mut self.terminal_views);
        self.terminal_views = set_pane(taken, pane_id, view);
    }

    /// Forgets the terminal view of `pane_id`.
    pub fn unregister_terminal_view(&mut self, pane_id: PaneId)
        requires
            old(self).wf(),
        ensures
            final(self).wf(),
            forall|p: PaneId| #[trigger] find(final(self).views_spec(), p) == if p == pane_id {
                None
            } else {
                find(old(self).views_spec(), p)
            },
            final(self).drag_spec() == old(self).drag_spec(),
    {
        let mut taken: Vec<(PaneId, T)> = Vec::new();
        std::mem::swap(&mut taken, &mut self.terminal_views);
        self.terminal_views = drop_pane(taken, pane_id);
    }

    /// The terminal view of `pane_id`.
    pub fn terminal_view(&self, pane_id: PaneId) -> (r: Option<&T>)
        requires
            self.wf(),
        ensures
            match r {
                Some(v) => find(self.views_spec(), pane_id) == Some(*v),
                None => find(self.views_spec(), pane_id) is None,
            },
    {
        match pane_index(&self.terminal_views, pane_id) {
            Some(i) => {
                proof {
                    lemma_find_unique(self.terminal_views@, i as int);
                }
                Some(&self.terminal_views[i].1)
            },
            None => {
                proof {
                    lemma_find_absent(self.terminal_views@, pane_id);
                }
                None
            },
        }
    }

    /// Starts dragging the separator of `split_id` from `(x, y)`, the
    /// split's ratio being `current_ratio` and its size `container_size`.
    pub fn start_drag(&mut self, split_id: PaneId, direction: SplitDirection, x: i32, y: i32, current_ratio: u16, container_size: u32)
        requires
            old(self).wf(),
        ensures
            final(self).wf(),
            final(self).drag_spec() == Some(
                DragState { split_id, direction, start_x: x, start_y: y, start_ratio: current_ratio, container_size },
            ),
            final(self).views_spec() == old(self).views_spec(),
    {
        self.drag_state = Some(
            DragState { split_id, direction, start_x: x, start_y: y, start_ratio: current_ratio, container_size },
        );
    }

    /// The pointer moved to `(x, y)` during a drag: the split's ratio in
    /// `manager` moves by the change `dragged_ratio` gives, and the drag
    /// continues from there. Without a drag, or with a split of no size,
    /// nothing happens.
    pub fn handle_drag_move(&mut self, x: i32, y: i32, manager: &mut SplitManager)
        requires
            old(self).wf(),
        ensures
            final(self).wf(),
            final(self).views_spec() == old(self).views_spec(),
            match old(self).drag_spec() {
                Some(d) => if d.container_size > 0 {
                    let r = dragged_ratio(d, x, y);
                    &&& final(self).drag_spec() == Some(
                        DragState { start_x: x, start_y: y, start_ratio: r as u16, ..d },
                    )
                    &&& (old(manager).root_spec() is Some && ratio_of(old(manager).root_spec()->0, d.split_id) is Some)
                        ==> final(manager).root_spec() == Some(
                        map_ratio(
                            old(manager).root_spec()->0,
                            d.split_id,
                            |v: u16| shifted_ratio(v, (r - d.start_ratio) as i32),
                        ),
                    )
                } else {
                    final(self).drag_spec() == old(self).drag_spec() && *final(manager) == *old(manager)
                },
                None => final(self).drag_spec() is None && *final(manager) == *old(manager),
            },
    {
        match self.drag_state {
            None => {},
            Some(d) => {
                if d.container_size > 0 {
                    let travel: i64 = match d.direction {
                        SplitDirection::Horizontal => (x as i64) - (d.start_x as i64),
                        SplitDirection::Vertical => (y as i64) - (d.start_y as i64),
                    };
                    let size = d.container_size as i64;
                    let mag: i64 = if travel >= 0 { travel } else { -travel };
                    let q: i64 = (mag * 1000) / size;
                    proof {
                        assert(0 <= q <= mag * 1000) by (nonlinear_arith)
                            requires
                                size >= 1,
                                mag >= 0,
                                q == (mag * 1000) / (size as int),
                        ;
                    }
                    let step: i64 = if travel >= 0 { q } else { -q };
                    let moved: i64 = (d.start_ratio as i64) + step;
                    let r: u16 = if moved < MIN_RATIO as i64 {
                        MIN_RATIO
                    } else if moved > MAX_RATIO as i64 {
                        MAX_RATIO
                    } else {
                        moved as u16
                    };
                    let delta: i32 = (r as i32) - (d.start_ratio as i32);
                    manager.adjust_split_ratio(d.split_id, delta);
                    self.drag_state = Some(DragState { start_x: x, start_y: y, start_ratio: r, ..d });
                }
            },
        }
    }

    /// Ends the drag.
    pub fn end_drag(&mut self)
        requires
            old(self).wf(),
        ensures
            final(self).wf(),
            final(self).drag_spec() is None,
            final(self).views_spec() == old(self).views_spec(),
    {
        self.drag_state = None;
    }

    /// Whether a separator is being dragged.
    pub fn is_dragging(&self) -> (r: bool)
        ensures
            r == self.drag_spec() is Some,
    {
        self.drag_state.is_some()
    }
}

/// The size a split is taken to have while its separator is dragged.
pub fn container_size_for(direction: SplitDirection) -> (r: u32)
    ensures
        r == default_container_size(direction),
{
    match direction {
        SplitDirection::Horizontal => 800,
        SplitDirection::Vertical => 600,
    }
}

} // verus!
