//! Split-pane layout: a binary tree whose leaves are terminal panes and
//! whose inner nodes split their area between two children.
//!
//! A split ratio is kept in thousandths of the area that the first child
//! takes, between 100 and 900.

use vstd::prelude::*;
use vstd::string::*;

use crate::entities::HostConfig;
use crate::ids::random_u128;
use crate::text::{decimal, owned, push_decimal};

verus! {

/// Identifier of a pane.
#[derive(Debug, Clone, Copy, PartialEq, Eq, Structural, Hash)]
pub struct PaneId {
    pub value: u128,
}

impl PaneId {
    /// A fresh random identifier.
    pub fn new() -> (r: PaneId) {
        PaneId { value: random_u128() }
    }
}

/// Direction of a split.
#[derive(Debug, Clone, Copy, PartialEq, Eq, Structural)]
pub enum SplitDirection {
    /// Side by side (left and right).
    Horizontal,
    /// Stacked (top and bottom).
    Vertical,
}

impl SplitDirection {
    /// Human readable description of the direction.
    pub fn description(&self) -> (r: &'static str)
        ensures
            r@ == (match *self {
                SplitDirection::Horizontal => "水平分屏"@,
                SplitDirection::Vertical => "垂直分屏"@,
            }),
    {
        match self {
            SplitDirection::Horizontal => "水平分屏",
            SplitDirection::Vertical => "垂直分屏",
        }
    }

    /// The other direction.
    pub fn toggle(&self) -> (r: SplitDirection)
        ensures
            r == (match *self {
                SplitDirection::Horizontal => SplitDirection::Vertical,
                SplitDirection::Vertical => SplitDirection::Horizontal,
            }),
    {
        match self {
            SplitDirection::Horizontal => SplitDirection::Vertical,
            SplitDirection::Vertical => SplitDirection::Horizontal,
        }
    }
}

/// Smallest split ratio, in thousandths.
pub const MIN_RATIO: u16 = 100;
/// Largest split ratio, in thousandths.
pub const MAX_RATIO: u16 = 900;
/// An even split, in thousandths.
pub const HALF_RATIO: u16 = 500;

/// A ratio forced into `[MIN_RATIO, MAX_RATIO]`.
pub open spec fn clamp_ratio(r: int) -> int {
    if r < MIN_RATIO as int {
        MIN_RATIO as int
    } else if r > MAX_RATIO as int {
        MAX_RATIO as int
    } else {
        r
    }
}

/// `clamp_ratio` on a machine ratio.
pub fn clamp_ratio_u16(r: u16) -> (c: u16)
    ensures
        c == clamp_ratio(r as int),
{
    if r < MIN_RATIO {
        MIN_RATIO
    } else if r > MAX_RATIO {
        MAX_RATIO
    } else {
        r
    }
}

/// What a pane shows: a terminal, or a split into two panes.
#[derive(Debug)]
pub enum PaneContent {
    /// A terminal view.
    Terminal {
        /// The terminal view's identifier.
        pane_id: PaneId,
        /// Title bar text.
        title: String,
        /// Whether the terminal has the focus.
        focused: bool,
    },
    /// Two panes sharing the area.
    Split {
        direction: SplitDirection,
        first: Box<Pane>,
        second: Box<Pane>,
        /// Thousandths of the area that `first` takes.
        ratio: u16,
    },
}

/// A node of the layout tree.
#[derive(Debug)]
pub struct Pane {
    /// The node's identifier.
    pub id: PaneId,
    /// The node's content.
    pub content: PaneContent,
}

/// The terminal identifiers of a layout, left to right.
pub open spec fn leaves(p: Pane) -> Seq<PaneId>
    decreases p,
{
    match p.content {
        PaneContent::Terminal { pane_id, .. } => seq![pane_id],
        PaneContent::Split { first, second, .. } => leaves(*first) + leaves(*second),
    }
}

/// Whether some node of the layout has identifier `id`.
pub open spec fn contains_node(p: Pane, id: PaneId) -> bool
    decreases p,
{
    p.id == id || match p.content {
        PaneContent::Terminal { .. } => false,
        PaneContent::Split { first, second, .. } => contains_node(*first, id) || contains_node(
            *second,
            id,
        ),
    }
}

/// The layout with focus set (`f`) or cleared on every terminal below `p`;
/// a split passes the focus to its first child only.
pub open spec fn with_focus(p: Pane, f: bool) -> Pane
    decreases p,
{
    match p.content {
        PaneContent::Terminal { pane_id, title, .. } => Pane {
            id: p.id,
            content: PaneContent::Terminal { pane_id, title, focused: f },
        },
        PaneContent::Split { direction, first, second, ratio } => Pane {
            id: p.id,
            content: PaneContent::Split {
                direction,
                first: Box::new(with_focus(*first, f)),
                second: Box::new(with_focus(*second, false)),
                ratio,
            },
        },
    }
}

/// Whether the pane has the focus: a terminal's flag, or its first child's.
pub open spec fn is_focused_spec(p: Pane) -> bool
    decreases p,
{
    match p.content {
        PaneContent::Terminal { focused, .. } => focused,
        PaneContent::Split { first, .. } => is_focused_spec(*first),
    }
}

/// The layout with the first node (in pre-order) named `target` focused.
pub open spec fn focus_node(p: Pane, target: PaneId) -> Pane
    decreases p,
{
    if p.id == target {
        with_focus(p, true)
    } else {
        match p.content {
            PaneContent::Terminal { .. } => p,
            PaneContent::Split { direction, first, second, ratio } => if contains_node(
                *first,
                target,
            ) {
                Pane {
                    id: p.id,
                    content: PaneContent::Split {
                        direction,
                        first: Box::new(focus_node(*first, target)),
                        second,
                        ratio,
                    },
                }
            } else {
                Pane {
                    id: p.id,
                    content: PaneContent::Split {
                        direction,
                        first,
                        second: Box::new(focus_node(*second, target)),
                        ratio,
                    },
                }
            },
        }
    }
}

/// The layout with the first node named `target` replaced by a split (named
/// `sid`) of that node and `new_pane`.
pub open spec fn split_node(
    p: Pane,
    target: PaneId,
    new_pane: Pane,
    direction: SplitDirection,
    ratio: u16,
    sid: PaneId,
) -> Pane
    decreases p,
{
    if p.id == target {
        Pane {
            id: sid,
            content: PaneContent::Split {
                direction,
                first: Box::new(p),
                second: Box::new(new_pane),
                ratio,
            },
        }
    } else {
        match p.content {
            PaneContent::Terminal { .. } => p,
            PaneContent::Split { direction: d, first, second, ratio: r } => if contains_node(
                *first,
                target,
            ) {
                Pane {
                    id: p.id,
                    content: PaneContent::Split {
                        direction: d,
                        first: Box::new(split_node(*first, target, new_pane, direction, ratio, sid)),
                        second,
                        ratio: r,
                    },
                }
            } else {
                Pane {
                    id: p.id,
                    content: PaneContent::Split {
                        direction: d,
                        first,
                        second: Box::new(split_node(*second, target, new_pane, direction, ratio, sid)),
                        ratio: r,
                    },
                }
            },
        }
    }
}

/// The layout with the first node named `target` below `p` removed: the
/// split that holds it is replaced by the other child.
pub open spec fn remove_node(p: Pane, target: PaneId) -> Pane
    decreases p,
{
    match p.content {
        PaneContent::Terminal { .. } => p,
        PaneContent::Split { direction, first, second, ratio } => if contains_node(
            *first,
            target,
        ) {
            if first.id == target {
                *second
            } else {
                Pane {
                    id: p.id,
                    content: PaneContent::Split {
                        direction,
                        first: Box::new(remove_node(*first, target)),
                        second,
                        ratio,
                    },
                }
            }
        } else if contains_node(*second, target) {
            if second.id == target {
                *first
            } else {
                Pane {
                    id: p.id,
                    content: PaneContent::Split {
                        direction,
                        first,
                        second: Box::new(remove_node(*second, target)),
                        ratio,
                    },
                }
            }
        } else {
            p
        },
    }
}

/// The ratio of the first split (in pre-order) named `target`.
pub open spec fn ratio_of(p: Pane, target: PaneId) -> Option<u16>
    decreases p,
{
    match p.content {
        PaneContent::Terminal { .. } => None,
        PaneContent::Split { first, second, ratio, .. } => if p.id == target {
            Some(ratio)
        } else {
            match ratio_of(*first, target) {
                Some(r) => Some(r),
                None => ratio_of(*second, target),
            }
        },
    }
}

/// The layout with the ratio of the first split named `target` replaced by
/// `f` of its old value.
pub open spec fn map_ratio(p: Pane, target: PaneId, f: spec_fn(u16) -> u16) -> Pane
    decreases p,
{
    match p.content {
        PaneContent::Terminal { .. } => p,
        PaneContent::Split { direction, first, second, ratio } => if p.id == target {
            Pane { id: p.id, content: PaneContent::Split { direction, first, second, ratio: f(ratio) } }
        } else if ratio_of(*first, target) is Some {
            Pane {
                id: p.id,
                content: PaneContent::Split {
                    direction,
                    first: Box::new(map_ratio(*first, target, f)),
                    second,
                    ratio,
                },
            }
        } else {
            Pane {
                id: p.id,
                content: PaneContent::Split {
                    direction,
                    first,
                    second: Box::new(map_ratio(*second, target, f)),
                    ratio,
                },
            }
        },
    }
}

/// A pane that stands in while a node is moved.
fn placeholder() -> (p: Pane)
    ensures
        p.id == (PaneId { value: 0 }),
        p.content matches PaneContent::Terminal { pane_id, title, focused } && pane_id == (PaneId { value: 0 })
            && title@.len() == 0 && !focused,
{
    Pane {
        id: PaneId { value: 0 },
        content: PaneContent::Terminal { pane_id: PaneId { value: 0 }, title: String::new(), focused: false },
    }
}

fn focus_owned(p: Pane, f: bool) -> (r: Pane)
    ensures
        r == with_focus(p, f),
    decreases p,
{
    let Pane { id, content } = p;
    match content {
        PaneContent::Terminal { pane_id, title, .. } => Pane {
            id,
            content: PaneContent::Terminal { pane_id, title, focused: f },
        },
        PaneContent::Split { direction, first, second, ratio } => {
            let a = focus_owned(*first, f);
            let b = focus_owned(*second, false);
            Pane {
                id,
                content: PaneContent::Split {
                    direction,
                    first: Box::new(a),
                    second: Box::new(b),
                    ratio,
                },
            }
        },
    }
}

fn contains_exec(p: &Pane, id: PaneId) -> (r: bool)
    ensures
        r == contains_node(*p, id),
    decreases p,
{
    if p.id == id {
        return true;
    }
    match &p.content {
        PaneContent::Terminal { .. } => false,
        PaneContent::Split { first, second, .. } => contains_exec(first, id) || contains_exec(
            second,
            id,
        ),
    }
}

fn focus_node_owned(p: Pane, target: PaneId) -> (r: Pane)
    ensures
        r == focus_node(p, target),
    decreases p,
{
    if p.id == target {
        return focus_owned(p, true);
    }
    let Pane { id, content } = p;
    match content {
        PaneContent::Terminal { pane_id, title, focused } => Pane {
            id,
            content: PaneContent::Terminal { pane_id, title, focused },
        },
        PaneContent::Split { direction, first, second, ratio } => {
            if contains_exec(&first, target) {
                let a = focus_node_owned(*first, target);
                Pane { id, content: PaneContent::Split { direction, first: Box::new(a), second, ratio } }
            } else {
                let b = focus_node_owned(*second, target);
                Pane { id, content: PaneContent::Split { direction, first, second: Box::new(b), ratio } }
            }
        },
    }
}

fn split_node_owned(
    p: Pane,
    target: PaneId,
    new_pane: Pane,
    direction: SplitDirection,
    ratio: u16,
    sid: PaneId,
) -> (r: Result<Pane, (Pane, Pane)>)
    ensures
        contains_node(p, target) ==> r == Ok::<Pane, (Pane, Pane)>(
            split_node(p, target, new_pane, direction, ratio, sid),
        ),
        !contains_node(p, target) ==> r == Err::<Pane, (Pane, Pane)>((p, new_pane)),
    decreases p,
{
    if p.id == target {
        return Ok(
            Pane {
                id: sid,
                content: PaneContent::Split {
                    direction,
                    first: Box::new(p),
                    second: Box::new(new_pane),
                    ratio,
                },
            },
        );
    }
    let Pane { id, content } = p;
    match content {
        PaneContent::Terminal { pane_id, title, focused } => Err(
            (Pane { id, content: PaneContent::Terminal { pane_id, title, focused } }, new_pane),
        ),
        PaneContent::Split { direction: d, first, second, ratio: r } => {
            match split_node_owned(*first, target, new_pane, direction, ratio, sid) {
                Ok(a) => Ok(
                    Pane {
                        id,
                        content: PaneContent::Split { direction: d, first: Box::new(a), second, ratio: r },
                    },
                ),
                Err((a, new_pane)) => {
                    match split_node_owned(*second, target, new_pane, direction, ratio, sid) {
                        Ok(b) => Ok(
                            Pane {
                                id,
                                content: PaneContent::Split {
                                    direction: d,
                                    first: Box::new(a),
                                    second: Box::new(b),
                                    ratio: r,
                                },
                            },
                        ),
                        Err((b, new_pane)) => Err(
                            (
                                Pane {
                                    id,
                                    content: PaneContent::Split {
                                        direction: d,
                                        first: Box::new(a),
                                        second: Box::new(b),
                                        ratio: r,
                                    },
                                },
                                new_pane,
                            ),
                        ),
                    }
                },
            }
        },
    }
}

fn remove_node_owned(p: Pane, target: PaneId) -> (r: Pane)
    ensures
        r == remove_node(p, target),
    decreases p,
{
    let Pane { id, content } = p;
    match content {
        PaneContent::Terminal { pane_id, title, focused } => Pane {
            id,
            content: PaneContent::Terminal { pane_id, title, focused },
        },
        PaneContent::Split { direction, first, second, ratio } => {
            if contains_exec(&first, target) {
                if first.id == target {
                    *second
                } else {
                    let a = remove_node_owned(*first, target);
                    Pane { id, content: PaneContent::Split { direction, first: Box::new(a), second, ratio } }
                }
            } else if contains_exec(&second, target) {
                if second.id == target {
                    *first
                } else {
                    let b = remove_node_owned(*second, target);
                    Pane { id, content: PaneContent::Split { direction, first, second: Box::new(b), ratio } }
                }
            } else {
                Pane { id, content: PaneContent::Split { direction, first, second, ratio } }
            }
        },
    }
}

fn ratio_exec(p: &Pane, target: PaneId) -> (r: Option<u16>)
    ensures
        r == ratio_of(*p, target),
    decreases p,
{
    match &p.content {
        PaneContent::Terminal { .. } => None,
        PaneContent::Split { first, second, ratio, .. } => {
            if p.id == target {
                Some(*ratio)
            } else {
                match ratio_exec(first, target) {
                    Some(r) => Some(r),
                    None => ratio_exec(second, target),
                }
            }
        },
    }
}

/// The new ratio after moving the divider by `delta` thousandths.
pub open spec fn shifted_ratio(r: u16, delta: i32) -> u16 {
    clamp_ratio(r + delta) as u16
}

/// The new ratio after setting it to `r`.
pub open spec fn set_ratio_spec(r: u16) -> u16 {
    clamp_ratio(r as int) as u16
}

fn shift_exec(r: u16, delta: i32) -> (c: u16)
    ensures
        c == shifted_ratio(r, delta),
{
    let v: i64 = r as i64 + delta as i64;
    if v < MIN_RATIO as i64 {
        MIN_RATIO
    } else if v > MAX_RATIO as i64 {
        MAX_RATIO
    } else {
        v as u16
    }
}

fn map_ratio_owned(p: Pane, target: PaneId, delta: Option<i32>, value: u16) -> (r: Pane)
    ensures
        delta is Some ==> r == map_ratio(p, target, |x: u16| shifted_ratio(x, delta->0)),
        delta is None ==> r == map_ratio(p, target, |x: u16| set_ratio_spec(value)),
    decreases p,
{
    let Pane { id, content } = p;
    match content {
        PaneContent::Terminal { pane_id, title, focused } => Pane {
            id,
            content: PaneContent::Terminal { pane_id, title, focused },
        },
        PaneContent::Split { direction, first, second, ratio } => {
            if id == target {
                let nr = match delta {
                    Some(d) => shift_exec(ratio, d),
                    None => clamp_ratio_u16(value),
                };
                Pane { id, content: PaneContent::Split { direction, first, second, ratio: nr } }
            } else if ratio_exec(&first, target).is_some() {
                let a = map_ratio_owned(*first, target, delta, value);
                Pane { id, content: PaneContent::Split { direction, first: Box::new(a), second, ratio } }
            } else {
                let b = map_ratio_owned(*second, target, delta, value);
                Pane { id, content: PaneContent::Split { direction, first, second: Box::new(b), ratio } }
            }
        },
    }
}

fn collect_leaves(p: &Pane, out: &mut Vec<PaneId>)
    ensures
        final(out)@ == old(out)@ + leaves(*p),
    decreases p,
{
    match &p.content {
        PaneContent::Terminal { pane_id, .. } => {
            out.push(*pane_id);
        },
        PaneContent::Split { first, second, .. } => {
            collect_leaves(first, out);
            collect_leaves(second, out);
            assert(final(out)@ =~= old(out)@ + leaves(*p));
        },
    }
}

impl Pane {
    /// A new terminal pane; its node and its terminal share one fresh
    /// identifier.
    pub fn new_terminal(title: &str) -> (r: Pane)
        ensures
            r.content == (PaneContent::Terminal { pane_id: r.id, title: r.content->title, focused: false }),
            r.content->title@ == title@,
    {
        let id = PaneId::new();
        Pane { id, content: PaneContent::Terminal { pane_id: id, title: owned(title), focused: false } }
    }

    /// A new terminal pane titled `user@host` for a stored host.
    pub fn new_ssh(host_config: &HostConfig) -> (r: Pane)
        ensures
            r.content == (PaneContent::Terminal { pane_id: r.id, title: r.content->title, focused: false }),
            r.content->title@ == host_config.username@ + "@"@ + host_config.host@,
    {
        let id = PaneId::new();
        let title = host_config.user_at_host();
        Pane { id, content: PaneContent::Terminal { pane_id: id, title, focused: false } }
    }

    /// A new split of `first` and `second`, the ratio forced into range.
    pub fn new_split(direction: SplitDirection, first: Pane, second: Pane, ratio: u16) -> (r: Pane)
        ensures
            r.content == (PaneContent::Split {
                direction,
                first: Box::new(first),
                second: Box::new(second),
                ratio: clamp_ratio(ratio as int) as u16,
            }),
    {
        let id = PaneId::new();
        let ratio = clamp_ratio_u16(ratio);
        Pane {
            id,
            content: PaneContent::Split { direction, first: Box::new(first), second: Box::new(second), ratio },
        }
    }

    /// Gives (`true`) or takes the focus; a split passes it to its first
    /// child and clears it on its second.
    pub fn set_focused(&mut self, focused: bool)
        ensures
            *final(self) == with_focus(*old(self), focused),
    {
        let mut p = placeholder();
        std::mem::swap(&mut p, self);
        *self = focus_owned(p, focused);
    }

    /// Whether the pane has the focus.
    pub fn is_focused(&self) -> (r: bool)
        ensures
            r == is_focused_spec(*self),
        decreases self,
    {
        match &self.content {
            PaneContent::Terminal { focused, .. } => *focused,
            PaneContent::Split { first, .. } => first.is_focused(),
        }
    }

    /// The terminal identifiers under this pane, left to right.
    pub fn collect_terminal_panes(&self) -> (r: Vec<PaneId>)
        ensures
            r@ == leaves(*self),
    {
        let mut out = Vec::new();
        collect_leaves(self, &mut out);
        proof {
            assert(out@ =~= leaves(*self));
        }
        out
    }
}


/// Toggling a direction twice gives it back.
pub proof fn law_toggle_involutive(d: SplitDirection)
    ensures
        (match (match d {
            SplitDirection::Horizontal => SplitDirection::Vertical,
            SplitDirection::Vertical => SplitDirection::Horizontal,
        }) {
            SplitDirection::Horizontal => SplitDirection::Vertical,
            SplitDirection::Vertical => SplitDirection::Horizontal,
        }) == d,
{
}

/// Splitting a node of the layout adds the new pane's terminals to the
/// layout's terminals and loses none: the count of terminals grows by the
/// new pane's count, and every old terminal and every new one is there.
pub proof fn law_split_keeps_terminals(
    p: Pane,
    target: PaneId,
    new_pane: Pane,
    direction: SplitDirection,
    ratio: u16,
    sid: PaneId,
)
    requires
        contains_node(p, target),
    ensures
        leaves(split_node(p, target, new_pane, direction, ratio, sid)).len() == leaves(p).len()
            + leaves(new_pane).len(),
        forall|x: PaneId|
            leaves(p).contains(x) ==> #[trigger] leaves(
                split_node(p, target, new_pane, direction, ratio, sid),
            ).contains(x),
        forall|x: PaneId|
            leaves(new_pane).contains(x) ==> #[trigger] leaves(
                split_node(p, target, new_pane, direction, ratio, sid),
            ).contains(x),
    decreases p,
{
    let r = split_node(p, target, new_pane, direction, ratio, sid);
    if p.id == target {
        assert forall|x: PaneId| leaves(p).contains(x) implies leaves(r).contains(x) by {
            let i = choose|i: int| 0 <= i < leaves(p).len() && leaves(p)[i] == x;
            assert(leaves(r)[i] == x);
        }
        assert forall|x: PaneId| leaves(new_pane).contains(x) implies leaves(r).contains(x) by {
            let i = choose|i: int| 0 <= i < leaves(new_pane).len() && leaves(new_pane)[i] == x;
            assert(leaves(r)[leaves(p).len() + i] == x);
        }
    } else {
        match p.content {
            PaneContent::Terminal { .. } => {},
            PaneContent::Split { first, second, .. } => {
                if contains_node(*first, target) {
                    law_split_keeps_terminals(*first, target, new_pane, direction, ratio, sid);
                    let f2 = split_node(*first, target, new_pane, direction, ratio, sid);
                    assert(leaves(r) == leaves(f2) + leaves(*second));
                    assert forall|x: PaneId| leaves(p).contains(x) implies leaves(r).contains(x) by {
                        let i = choose|i: int| 0 <= i < leaves(p).len() && leaves(p)[i] == x;
                        if i < leaves(*first).len() {
                            assert(leaves(*first)[i] == x);
                            assert(leaves(*first).contains(x));
                            assert(leaves(f2).contains(x));
                            let k = choose|k: int| 0 <= k < leaves(f2).len() && leaves(f2)[k] == x;
                            assert(leaves(r)[k] == x);
                        } else {
                            assert(leaves(*second)[i - leaves(*first).len()] == x);
                            assert(leaves(r)[i - leaves(*first).len() + leaves(f2).len()] == x);
                        }
                    }
                    assert forall|x: PaneId| leaves(new_pane).contains(x) implies leaves(r).contains(x) by {
                        assert(leaves(f2).contains(x));
                        let k = choose|k: int| 0 <= k < leaves(f2).len() && leaves(f2)[k] == x;
                        assert(leaves(r)[k] == x);
                    }
                } else {
                    law_split_keeps_terminals(*second, target, new_pane, direction, ratio, sid);
                    let s2 = split_node(*second, target, new_pane, direction, ratio, sid);
                    assert(leaves(r) == leaves(*first) + leaves(s2));
                    assert forall|x: PaneId| leaves(p).contains(x) implies leaves(r).contains(x) by {
                        let i = choose|i: int| 0 <= i < leaves(p).len() && leaves(p)[i] == x;
                        if i < leaves(*first).len() {
                            assert(leaves(*first)[i] == x);
                            assert(leaves(r)[i] == x);
                        } else {
                            assert(leaves(*second)[i - leaves(*first).len()] == x);
                            assert(leaves(*second).contains(x));
                            assert(leaves(s2).contains(x));
                            let k = choose|k: int| 0 <= k < leaves(s2).len() && leaves(s2)[k] == x;
                            assert(leaves(r)[leaves(*first).len() + k] == x);
                        }
                    }
                    assert forall|x: PaneId| leaves(new_pane).contains(x) implies leaves(r).contains(x) by {
                        assert(leaves(s2).contains(x));
                        let k = choose|k: int| 0 <= k < leaves(s2).len() && leaves(s2)[k] == x;
                        assert(leaves(r)[leaves(*first).len() + k] == x);
                    }
                }
            },
        }
    }
}

/// Closing a pane that was just split off restores the layout as it was
/// before the split (when the new pane's id was not already in the layout).
pub proof fn law_close_undoes_split(
    p: Pane,
    target: PaneId,
    new_pane: Pane,
    direction: SplitDirection,
    ratio: u16,
    sid: PaneId,
)
    requires
        contains_node(p, target),
        !contains_node(p, new_pane.id),
        sid != new_pane.id,
    ensures
        remove_node(split_node(p, target, new_pane, direction, ratio, sid), new_pane.id) == p,
    decreases p,
{
    lemma_split_contains(p, target, new_pane, direction, ratio, sid);
    assert(contains_node(new_pane, new_pane.id));
    if p.id != target {
        match p.content {
            PaneContent::Terminal { .. } => {},
            PaneContent::Split { direction: d, first, second, ratio: r } => {
                assert(!contains_node(*first, new_pane.id));
                assert(!contains_node(*second, new_pane.id));
                if contains_node(*first, target) {
                    law_close_undoes_split(*first, target, new_pane, direction, ratio, sid);
                    lemma_split_contains(*first, target, new_pane, direction, ratio, sid);
                    let f2 = split_node(*first, target, new_pane, direction, ratio, sid);
                    assert(contains_node(f2, new_pane.id));
                    assert(f2.id != new_pane.id);
                    assert(remove_node(f2, new_pane.id) == *first);
                } else {
                    law_close_undoes_split(*second, target, new_pane, direction, ratio, sid);
                    lemma_split_contains(*second, target, new_pane, direction, ratio, sid);
                    let s2 = split_node(*second, target, new_pane, direction, ratio, sid);
                    assert(contains_node(s2, new_pane.id));
                    assert(s2.id != new_pane.id);
                    assert(remove_node(s2, new_pane.id) == *second);
                }
            },
        }
    } else {
        let r = split_node(p, target, new_pane, direction, ratio, sid);
        assert(!contains_node(p, new_pane.id));
        match r.content {
            PaneContent::Split { first, second, .. } => {
                assert(*first == p);
                assert(*second == new_pane);
            },
            _ => {},
        }
    }
}

/// After a split the new pane is in the layout, and an id other than the
/// new pane's and the split's is in it exactly when it was before.
pub proof fn lemma_split_contains(
    p: Pane,
    target: PaneId,
    new_pane: Pane,
    direction: SplitDirection,
    ratio: u16,
    sid: PaneId,
)
    requires
        contains_node(p, target),
    ensures
        contains_node(split_node(p, target, new_pane, direction, ratio, sid), new_pane.id),
        split_node(p, target, new_pane, direction, ratio, sid).id == (if p.id == target {
            sid
        } else {
            p.id
        }),
        forall|x: PaneId|
            !contains_node(new_pane, x) && x != sid ==> (contains_node(
                #[trigger] split_node(p, target, new_pane, direction, ratio, sid),
                x,
            ) == contains_node(p, x)),
    decreases p,
{
    assert(contains_node(new_pane, new_pane.id));
    if p.id != target {
        match p.content {
            PaneContent::Terminal { .. } => {},
            PaneContent::Split { first, second, .. } => {
                if contains_node(*first, target) {
                    lemma_split_contains(*first, target, new_pane, direction, ratio, sid);
                } else {
                    lemma_split_contains(*second, target, new_pane, direction, ratio, sid);
                }
            },
        }
    }
}

/// Moving the focus or changing a ratio never changes which terminals the
/// layout holds, nor their order.
pub proof fn law_focus_and_ratio_keep_terminals(p: Pane, target: PaneId, f: spec_fn(u16) -> u16)
    ensures
        leaves(focus_node(p, target)) == leaves(p),
        leaves(map_ratio(p, target, f)) == leaves(p),
    decreases p,
{
    lemma_with_focus_leaves(p, true);
    match p.content {
        PaneContent::Terminal { .. } => {},
        PaneContent::Split { first, second, .. } => {
            law_focus_and_ratio_keep_terminals(*first, target, f);
            law_focus_and_ratio_keep_terminals(*second, target, f);
        },
    }
}

proof fn lemma_with_focus_leaves(p: Pane, f: bool)
    ensures
        leaves(with_focus(p, f)) == leaves(p),
        is_focused_spec(with_focus(p, f)) == f,
    decreases p,
{
    match p.content {
        PaneContent::Terminal { .. } => {},
        PaneContent::Split { first, second, .. } => {
            lemma_with_focus_leaves(*first, f);
            lemma_with_focus_leaves(*second, false);
        },
    }
}

/// Every ratio that a ratio update writes lies in `[MIN_RATIO, MAX_RATIO]`.
pub proof fn law_ratio_in_range(r: u16, delta: i32, v: u16)
    ensures
        MIN_RATIO <= shifted_ratio(r, delta) <= MAX_RATIO,
        MIN_RATIO <= set_ratio_spec(v) <= MAX_RATIO,
{
}

/// Focusing a node makes it report the focus.
pub proof fn law_focus_pane_focuses(p: Pane, target: PaneId)
    requires
        p.id == target,
    ensures
        is_focused_spec(focus_node(p, target)),
{
    lemma_with_focus_leaves(p, true);
}

/// What the split manager reports to the views.
#[derive(Debug, Clone, Copy, PartialEq, Eq, Structural)]
pub enum SplitManagerEvent {
    /// A pane was split; the new pane.
    PaneSplit(PaneId),
    /// A pane was closed.
    PaneClosed(PaneId),
    /// The focus moved to a pane.
    FocusChanged(PaneId),
    /// The layout changed.
    LayoutChanged,
}

/// The index of the first occurrence of `x` in `s`, if any.
pub open spec fn first_index(s: Seq<PaneId>, x: PaneId) -> Option<int>
    decreases s.len(),
{
    if s.len() == 0 {
        None
    } else if s[0] == x {
        Some(0)
    } else {
        match first_index(s.drop_first(), x) {
            Some(i) => Some(i + 1),
            None => None,
        }
    }
}

proof fn lemma_first_index(s: Seq<PaneId>, x: PaneId)
    ensures
        first_index(s, x) matches Some(i) ==> 0 <= i < s.len() && s[i] == x && forall|j: int|
            0 <= j < i ==> s[j] != x,
        first_index(s, x) is None ==> forall|j: int| 0 <= j < s.len() ==> s[j] != x,
    decreases s.len(),
{
    if s.len() > 0 {
        lemma_first_index(s.drop_first(), x);
        if s[0] != x {
            assert forall|j: int| 1 <= j < s.len() implies s[j] == s.drop_first()[j - 1] by {}
        }
    }
}

fn first_index_exec(s: &Vec<PaneId>, x: PaneId) -> (r: Option<usize>)
    ensures
        match first_index(s@, x) {
            Some(i) => r == Some(i as usize),
            None => r is None,
        },
{
    proof {
        lemma_first_index(s@, x);
    }
    let mut i: usize = 0;
    while i < s.len()
        invariant
            0 <= i <= s.len(),
            forall|j: int| 0 <= j < i ==> s@[j] != x,
            first_index(s@, x) matches Some(k) ==> 0 <= k < s.len() && s@[k] == x && forall|j: int|
                0 <= j < k ==> s@[j] != x,
            first_index(s@, x) is None ==> forall|j: int| 0 <= j < s.len() ==> s@[j] != x,
        decreases s.len() - i,
    {
        if s[i] == x {
            return Some(i);
        }
        i = i + 1;
    }
    None
}

/// The pane that focus moves to from `current` going forward (`forward`) or
/// backward through `panes`: the neighbour (wrapping around) of the first
/// occurrence of `current`, or the first pane if `current` is not there.
pub open spec fn focus_step(panes: Seq<PaneId>, current: Option<PaneId>, forward: bool) -> Option<PaneId> {
    if panes.len() == 0 {
        None
    } else {
        match current {
            Some(c) => match first_index(panes, c) {
                Some(i) => if forward {
                    Some(panes[(i + 1) % (panes.len() as int)])
                } else if i == 0 {
                    Some(panes[panes.len() - 1])
                } else {
                    Some(panes[i - 1])
                },
                None => Some(panes[0]),
            },
            None => Some(panes[0]),
        }
    }
}

/// The layout of one tab: the pane tree, the focused pane and a count of
/// the panes made.
pub struct SplitManager {
    root: Option<Pane>,
    focused_pane: Option<PaneId>,
    pane_count: usize,
    events: Vec<SplitManagerEvent>,
}

impl SplitManager {
    /// The layout tree.
    pub closed spec fn root_spec(&self) -> Option<Pane> {
        self.root
    }

    /// The focused pane.
    pub closed spec fn focused_spec(&self) -> Option<PaneId> {
        self.focused_pane
    }

    /// The pane count.
    pub closed spec fn count_spec(&self) -> nat {
        self.pane_count as nat
    }

    /// The events not yet taken.
    pub closed spec fn events_spec(&self) -> Seq<SplitManagerEvent> {
        self.events@
    }

    /// An empty layout.
    pub fn new() -> (r: SplitManager)
        ensures
            r.root_spec() is None,
            r.focused_spec() is None,
            r.count_spec() == 0,
            r.events_spec() == Seq::<SplitManagerEvent>::empty(),
    {
        SplitManager { root: None, focused_pane: None, pane_count: 0, events: Vec::new() }
    }

    /// Makes `pane` the whole layout.
    pub fn set_root(&mut self, pane: Pane)
        ensures
            final(self).root_spec() == Some(pane),
            final(self).focused_spec() == old(self).focused_spec(),
            final(self).count_spec() == 1,
            final(self).events_spec() == old(self).events_spec().push(SplitManagerEvent::LayoutChanged),
    {
        self.root = Some(pane);
        self.pane_count = 1;
        self.events.push(SplitManagerEvent::LayoutChanged);
    }

    /// Splits the pane `target` left and right with a new terminal pane.
    pub fn split_horizontal(&mut self, target: PaneId) -> (r: Option<PaneId>)
        requires
            old(self).count_spec() < usize::MAX,
        ensures
            Self::split_outcome(*old(self), *final(self), target, SplitDirection::Horizontal, r),
    {
        self.split_pane(target, SplitDirection::Horizontal)
    }

    /// Splits the pane `target` top and bottom with a new terminal pane.
    pub fn split_vertical(&mut self, target: PaneId) -> (r: Option<PaneId>)
        requires
            old(self).count_spec() < usize::MAX,
        ensures
            Self::split_outcome(*old(self), *final(self), target, SplitDirection::Vertical, r),
    {
        self.split_pane(target, SplitDirection::Vertical)
    }

    /// What a split of `target` with a new terminal titled
    /// `Terminal <count + 1>` does: if the layout holds `target`, the node is
    /// replaced by an even split of it and the new pane, which takes the
    /// focus and is returned; else nothing changes and `None` is returned.
    pub open spec fn split_outcome(
        old: SplitManager,
        new: SplitManager,
        target: PaneId,
        direction: SplitDirection,
        r: Option<PaneId>,
    ) -> bool {
        if old.root_spec() is Some && contains_node(old.root_spec()->0, target) {
            exists|np: Pane, sid: PaneId|
                {
                    &&& np.content == (PaneContent::Terminal {
                        pane_id: np.id,
                        title: np.content->title,
                        focused: false,
                    })
                    &&& np.content->title@ == "Terminal "@ + decimal(old.count_spec() + 1)
                    &&& r == Some(np.id)
                    &&& new.root_spec() == Some(
                        #[trigger] split_node(old.root_spec()->0, target, np, direction, HALF_RATIO, sid),
                    )
                    &&& new.focused_spec() == Some(np.id)
                    &&& new.count_spec() == old.count_spec() + 1
                    &&& new.events_spec() == old.events_spec().push(
                        SplitManagerEvent::PaneSplit(np.id),
                    ).push(SplitManagerEvent::LayoutChanged)
                }
        } else {
            r is None && new == old
        }
    }

    fn split_pane(&mut self, target: PaneId, direction: SplitDirection) -> (r: Option<PaneId>)
        requires
            old(self).count_spec() < usize::MAX,
        ensures
            Self::split_outcome(*old(self), *final(self), target, direction, r),
    {
        let ghost old_self = *self;
        match &self.root {
            None => return None,
            Some(root) => {
                if !contains_exec(root, target) {
                    return None;
                }
            },
        }
        let mut title = owned("Terminal ");
        push_decimal(&mut title, self.pane_count as u64 + 1);
        let new_pane = Pane::new_terminal(title.as_str());
        let r = self.split_with_pane(target, new_pane, direction, HALF_RATIO);
        r
    }

    /// The effect of splitting `target` with `new_pane` at `ratio` (forced
    /// into range): when the layout holds `target`, its node becomes a
    /// split of it and the new pane, which takes the focus and is returned;
    /// otherwise nothing changes and `None` is returned.
    pub open spec fn split_with_outcome(
        old: SplitManager,
        new: SplitManager,
        target: PaneId,
        new_pane: Pane,
        direction: SplitDirection,
        ratio: u16,
        r: Option<PaneId>,
    ) -> bool {
        if old.root_spec() is Some && contains_node(old.root_spec()->0, target) {
            &&& r == Some(new_pane.id)
            &&& exists|sid: PaneId|
                new.root_spec() == Some(
                    #[trigger] split_node(
                        old.root_spec()->0,
                        target,
                        new_pane,
                        direction,
                        clamp_ratio(ratio as int) as u16,
                        sid,
                    ),
                )
            &&& new.focused_spec() == Some(new_pane.id)
            &&& new.count_spec() == old.count_spec() + 1
            &&& new.events_spec() == old.events_spec().push(SplitManagerEvent::PaneSplit(new_pane.id)).push(
                SplitManagerEvent::LayoutChanged,
            )
        } else {
            r is None && new == old
        }
    }

    /// Splits the pane `target` with a pane the caller made, the ratio
    /// forced into range.
    pub fn split_with_pane(
        &mut self,
        target: PaneId,
        new_pane: Pane,
        direction: SplitDirection,
        ratio: u16,
    ) -> (r: Option<PaneId>)
        requires
            old(self).count_spec() < usize::MAX,
        ensures
            Self::split_with_outcome(*old(self), *final(self), target, new_pane, direction, ratio, r),
    {
        let root = self.root.take();
        match root {
            None => None,
            Some(root) => {
                let new_id = new_pane.id;
                let sid = PaneId::new();
                let ratio = clamp_ratio_u16(ratio);
                let ghost old_root = root;
                let ghost np = new_pane;
                match split_node_owned(root, target, new_pane, direction, ratio, sid) {
                    Ok(new_root) => {
                        assert(new_root == split_node(old_root, target, np, direction, clamp_ratio(ratio as int) as u16, sid));
                        self.root = Some(new_root);
                        self.pane_count = self.pane_count + 1;
                        self.focused_pane = Some(new_id);
                        self.events.push(SplitManagerEvent::PaneSplit(new_id));
                        self.events.push(SplitManagerEvent::LayoutChanged);
                        Some(new_id)
                    },
                    Err((root, _)) => {
                        self.root = Some(root);
                        None
                    },
                }
            },
        }
    }

    /// Whether the pane `target` can be closed: the layout holds it, not as
    /// its root, and holds more than one pane.
    pub open spec fn close_allowed(old: SplitManager, target: PaneId) -> bool {
        old.root_spec() is Some && old.count_spec() > 1 && old.root_spec()->0.id != target && contains_node(
            old.root_spec()->0,
            target,
        )
    }

    /// The effect of closing `target`: the split that held it gives its
    /// area to the other child, one pane less is counted, and the focus
    /// moves on as `focus_next_pane` does.
    pub open spec fn close_outcome(old: SplitManager, new: SplitManager, target: PaneId) -> bool {
        let t = remove_node(old.root_spec()->0, target);
        let next = focus_step(leaves(t), old.focused_spec(), true);
        &&& new.count_spec() == old.count_spec() - 1
        &&& if next is Some && contains_node(t, next->0) {
            new.root_spec() == Some(focus_node(t, next->0)) && new.focused_spec() == next
        } else {
            new.root_spec() == Some(t) && new.focused_spec() == old.focused_spec()
        }
        &&& new.events_spec().last() == SplitManagerEvent::LayoutChanged
    }

    /// Closes the pane `target`; the split that held it gives its area to
    /// the other child. Refused when there is no layout, when the count is
    /// at most one, and when `target` is the root or not in the layout.
    /// Afterwards the focus moves on as `focus_next_pane` does.
    pub fn close_pane(&mut self, target: PaneId) -> (r: bool)
        ensures
            r == Self::close_allowed(*old(self), target),
            r ==> Self::close_outcome(*old(self), *final(self), target),
            !r ==> *final(self) == *old(self),
    {
        if self.pane_count <= 1 {
            return false;
        }
        let root = self.root.take();
        match root {
            None => false,
            Some(root) => {
                if root.id == target || !contains_exec(&root, target) {
                    self.root = Some(root);
                    return false;
                }
                let t = remove_node_owned(root, target);
                self.root = Some(t);
                self.pane_count = self.pane_count - 1;
                self.focus_next_pane();
                self.events.push(SplitManagerEvent::PaneClosed(target));
                self.events.push(SplitManagerEvent::LayoutChanged);
                true
            },
        }
    }

    /// Gives the focus to the pane `target`.
    pub fn focus_pane(&mut self, target: PaneId) -> (r: bool)
        ensures
            r == (old(self).root_spec() is Some && contains_node(old(self).root_spec()->0, target)),
            r ==> final(self).root_spec() == Some(focus_node(old(self).root_spec()->0, target))
                && final(self).focused_spec() == Some(target) && final(self).count_spec()
                == old(self).count_spec() && final(self).events_spec() == old(self).events_spec().push(SplitManagerEvent::FocusChanged(target)),
            !r ==> *final(self) == *old(self),
    {
        let root = self.root.take();
        match root {
            None => false,
            Some(root) => {
                if contains_exec(&root, target) {
                    self.root = Some(focus_node_owned(root, target));
                    self.focused_pane = Some(target);
                    self.events.push(SplitManagerEvent::FocusChanged(target));
                    true
                } else {
                    self.root = Some(root);
                    false
                }
            },
        }
    }

    fn focus_step_exec(&mut self, forward: bool)
        ensures
            old(self).root_spec() is None ==> *final(self) == *old(self),
            old(self).root_spec() is Some ==> {
                let next = focus_step(leaves(old(self).root_spec()->0), old(self).focused_spec(), forward);
                &&& next is None ==> *final(self) == *old(self)
                &&& next is Some ==> if contains_node(old(self).root_spec()->0, next->0) {
                    &&& final(self).root_spec() == Some(focus_node(old(self).root_spec()->0, next->0))
                    &&& final(self).focused_spec() == next
                    &&& final(self).count_spec() == old(self).count_spec()
                    &&& final(self).events_spec() == old(self).events_spec().push(
                        SplitManagerEvent::FocusChanged(next->0),
                    )
                } else {
                    *final(self) == *old(self)
                }
            },
    {
        let panes = match &self.root {
            None => return,
            Some(root) => root.collect_terminal_panes(),
        };
        if panes.len() == 0 {
            return;
        }
        proof {
            if self.focused_pane is Some {
                lemma_first_index(panes@, self.focused_pane->0);
            }
        }
        let next = match self.focused_pane {
            Some(current) => match first_index_exec(&panes, current) {
                Some(i) => {
                    if forward {
                        let j = if i + 1 < panes.len() { i + 1 } else { 0 };
                        proof {
                            let n = panes.len() as int;
                            if i + 1 < n {
                                vstd::arithmetic::div_mod::lemma_small_mod((i + 1) as nat, n as nat);
                            } else {
                                vstd::arithmetic::div_mod::lemma_mod_self_0(n);
                            }
                        }
                        panes[j]
                    } else if i == 0 {
                        panes[panes.len() - 1]
                    } else {
                        panes[i - 1]
                    }
                },
                None => panes[0],
            },
            None => panes[0],
        };
        self.focus_pane(next);
    }

    /// The effect of moving the focus to the next (`forward`) or previous
    /// terminal pane, wrapping around: the pane that `focus_step` picks
    /// gets the focus, when it is in the layout; otherwise nothing changes.
    pub open spec fn focus_moved(old: SplitManager, new: SplitManager, forward: bool) -> bool {
        if old.root_spec() is None {
            new == old
        } else {
            let next = focus_step(leaves(old.root_spec()->0), old.focused_spec(), forward);
            if next is Some && contains_node(old.root_spec()->0, next->0) {
                &&& new.root_spec() == Some(focus_node(old.root_spec()->0, next->0))
                &&& new.focused_spec() == next
                &&& new.count_spec() == old.count_spec()
                &&& new.events_spec() == old.events_spec().push(SplitManagerEvent::FocusChanged(next->0))
            } else {
                new == old
            }
        }
    }

    /// Moves the focus to the next terminal pane (wrapping around), or to
    /// the first one when the focused pane is not a terminal of the layout.
    pub fn focus_next_pane(&mut self)
        ensures
            Self::focus_moved(*old(self), *final(self), true),
    {
        self.focus_step_exec(true)
    }

    /// Moves the focus to the previous terminal pane (wrapping around), or
    /// to the first one when the focused pane is not a terminal of the layout.
    pub fn focus_prev_pane(&mut self)
        ensures
            Self::focus_moved(*old(self), *final(self), false),
    {
        self.focus_step_exec(false)
    }

    /// The layout tree.
    pub fn root(&self) -> (r: Option<&Pane>)
        ensures
            r == match self.root_spec() {
                Some(p) => Some(&p),
                None => None::<&Pane>,
            },
    {
        self.root.as_ref()
    }

    /// The focused pane.
    pub fn focused_pane(&self) -> (r: Option<PaneId>)
        ensures
            r == self.focused_spec(),
    {
        self.focused_pane
    }

    /// The pane count.
    pub fn pane_count(&self) -> (r: usize)
        ensures
            r == self.count_spec(),
    {
        self.pane_count
    }

    /// Whether there is a layout.
    pub fn has_panes(&self) -> (r: bool)
        ensures
            r == self.root_spec() is Some,
    {
        self.root.is_some()
    }

    /// Moves the divider of the split `target` by `delta` thousandths,
    /// keeping the ratio in range.
    pub fn adjust_split_ratio(&mut self, target: PaneId, delta: i32)
        ensures
            old(self).root_spec() is Some && ratio_of(old(self).root_spec()->0, target) is Some ==> {
                &&& final(self).root_spec() == Some(
                    map_ratio(old(self).root_spec()->0, target, |x: u16| shifted_ratio(x, delta)),
                )
                &&& final(self).focused_spec() == old(self).focused_spec()
                &&& final(self).count_spec() == old(self).count_spec()
                &&& final(self).events_spec() == old(self).events_spec().push(
                    SplitManagerEvent::LayoutChanged,
                )
            },
            !(old(self).root_spec() is Some && ratio_of(old(self).root_spec()->0, target) is Some)
                ==> *final(self) == *old(self),
    {
        self.update_ratio(target, Some(delta), 0)
    }

    /// Sets the ratio of the split `target`, forced into range.
    pub fn set_split_ratio(&mut self, target: PaneId, ratio: u16)
        ensures
            old(self).root_spec() is Some && ratio_of(old(self).root_spec()->0, target) is Some ==> {
                &&& final(self).root_spec() == Some(
                    map_ratio(old(self).root_spec()->0, target, |x: u16| set_ratio_spec(ratio)),
                )
                &&& final(self).focused_spec() == old(self).focused_spec()
                &&& final(self).count_spec() == old(self).count_spec()
                &&& final(self).events_spec() == old(self).events_spec().push(
                    SplitManagerEvent::LayoutChanged,
                )
            },
            !(old(self).root_spec() is Some && ratio_of(old(self).root_spec()->0, target) is Some)
                ==> *final(self) == *old(self),
    {
        self.update_ratio(target, None, ratio)
    }

    fn update_ratio(&mut self, target: PaneId, delta: Option<i32>, value: u16)
        ensures
            old(self).root_spec() is Some && ratio_of(old(self).root_spec()->0, target) is Some ==> {
                &&& delta is Some ==> final(self).root_spec() == Some(
                    map_ratio(old(self).root_spec()->0, target, |x: u16| shifted_ratio(x, delta->0)),
                )
                &&& delta is None ==> final(self).root_spec() == Some(
                    map_ratio(old(self).root_spec()->0, target, |x: u16| set_ratio_spec(value)),
                )
                &&& final(self).focused_spec() == old(self).focused_spec()
                &&& final(self).count_spec() == old(self).count_spec()
                &&& final(self).events_spec() == old(self).events_spec().push(
                    SplitManagerEvent::LayoutChanged,
                )
            },
            !(old(self).root_spec() is Some && ratio_of(old(self).root_spec()->0, target) is Some)
                ==> *final(self) == *old(self),
    {
        let root = self.root.take();
        match root {
            None => {},
            Some(root) => {
                if ratio_exec(&root, target).is_some() {
                    self.root = Some(map_ratio_owned(root, target, delta, value));
                    self.events.push(SplitManagerEvent::LayoutChanged);
                } else {
                    self.root = Some(root);
                }
            },
        }
    }

    /// The ratio of the split `target`.
    pub fn get_split_ratio(&self, target: PaneId) -> (r: Option<u16>)
        ensures
            r == match self.root_spec() {
                Some(p) => ratio_of(p, target),
                None => None,
            },
    {
        match &self.root {
            Some(root) => ratio_exec(root, target),
            None => None,
        }
    }

    /// Hands over the events reported since the last call.
    pub fn take_events(&mut self) -> (r: Vec<SplitManagerEvent>)
        ensures
            r@ == old(self).events_spec(),
            final(self).events_spec() == Seq::<SplitManagerEvent>::empty(),
            final(self).root_spec() == old(self).root_spec(),
            final(self).focused_spec() == old(self).focused_spec(),
            final(self).count_spec() == old(self).count_spec(),
    {
        let mut r = Vec::new();
        std::mem::swap(&mut r, &mut self.events);
        r
    }
}

impl Default for SplitManager {
    fn default() -> (r: SplitManager)
        ensures
            r.root_spec() is None,
            r.focused_spec() is None,
            r.count_spec() == 0,
            r.events_spec() == Seq::<SplitManagerEvent>::empty(),
    {
        SplitManager::new()
    }
}

} // verus!
