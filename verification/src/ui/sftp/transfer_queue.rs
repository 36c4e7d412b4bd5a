//! The SFTP transfer queue: transfers in the order they were queued, their
//! states, filters over them and the bulk operations on them.

use vstd::prelude::*;
use vstd::string::*;

use crate::seqs::lemma_filter_push;
use crate::text::{after_last_slash, chars_of, last_component, owned};

verus! {

/// Identifier of a transfer task.
#[derive(Debug, Clone, Copy, PartialEq, Eq, Structural, Hash)]
pub struct TransferTaskId(pub u64);

/// Which way a file moves.
#[derive(Debug, Clone, Copy, PartialEq, Eq, Structural)]
pub enum TransferDirection {
    /// Local to remote.
    Upload,
    /// Remote to local.
    Download,
}

/// Where a transfer stands.
#[derive(Debug, Clone, Copy, PartialEq, Eq, Structural)]
pub enum TransferState {
    Pending,
    InProgress,
    Paused,
    Completed,
    Failed,
    Cancelled,
}

/// Whether a transfer has ended (completed, failed or cancelled).
pub open spec fn terminated(s: TransferState) -> bool {
    s == TransferState::Completed || s == TransferState::Failed || s == TransferState::Cancelled
}

/// The progress of one transfer.
#[derive(Debug)]
pub struct TransferProgress {
    pub direction: TransferDirection,
    pub source_path: String,
    pub dest_path: String,
    pub total_bytes: u64,
    pub transferred_bytes: u64,
    /// Bytes per second.
    pub speed_bps: u64,
    pub state: TransferState,
}

impl TransferProgress {
    /// A pending transfer of `total_bytes` bytes.
    pub fn new(direction: TransferDirection, source_path: &str, dest_path: &str, total_bytes: u64) -> (r: TransferProgress)
        ensures
            r.direction == direction,
            r.source_path@ == source_path@,
            r.dest_path@ == dest_path@,
            r.total_bytes == total_bytes,
            r.transferred_bytes == 0,
            r.speed_bps == 0,
            r.state == TransferState::Pending,
    {
        TransferProgress {
            direction,
            source_path: owned(source_path),
            dest_path: owned(dest_path),
            total_bytes,
            transferred_bytes: 0,
            speed_bps: 0,
            state: TransferState::Pending,
        }
    }

    /// Whether the transfer has ended.
    pub fn is_terminated(&self) -> (r: bool)
        ensures
            r == terminated(self.state),
    {
        match self.state {
            TransferState::Completed | TransferState::Failed | TransferState::Cancelled => true,
            _ => false,
        }
    }
}

impl Clone for TransferProgress {
    fn clone(&self) -> (r: Self)
        ensures
            r == *self,
    {
        TransferProgress {
            direction: self.direction,
            source_path: self.source_path.clone(),
            dest_path: self.dest_path.clone(),
            total_bytes: self.total_bytes,
            transferred_bytes: self.transferred_bytes,
            speed_bps: self.speed_bps,
            state: self.state,
        }
    }
}

/// What the transfer queue asks of the SFTP view.
#[derive(Debug)]
pub enum TransferQueueEvent {
    PauseRequested(TransferTaskId),
    ResumeRequested(TransferTaskId),
    CancelRequested(TransferTaskId),
    RetryRequested(TransferTaskId),
    ClearCompleted,
    ClearAll,
    OpenDestination(String),
}

/// One queued transfer as the queue shows it.
#[derive(Debug)]
pub struct TransferItem {
    pub id: TransferTaskId,
    pub progress: TransferProgress,
    /// Whether the details are shown.
    pub expanded: bool,
}

impl Clone for TransferItem {
    fn clone(&self) -> (r: Self)
        ensures
            r == *self,
    {
        TransferItem { id: self.id, progress: self.progress.clone(), expanded: self.expanded }
    }
}

impl TransferItem {
    /// A collapsed item.
    pub fn new(id: TransferTaskId, progress: TransferProgress) -> (r: TransferItem)
        ensures
            r.id == id,
            r.progress == progress,
            !r.expanded,
    {
        TransferItem { id, progress, expanded: false }
    }

    /// The name of the file: the last component of the source path for an
    /// upload, of the destination path for a download.
    pub fn file_name(&self) -> (r: &str)
        ensures
            r@ == last_component(
                match self.progress.direction {
                    TransferDirection::Upload => self.progress.source_path@,
                    TransferDirection::Download => self.progress.dest_path@,
                },
            ),
    {
        let path = match self.progress.direction {
            TransferDirection::Upload => self.progress.source_path.as_str(),
            TransferDirection::Download => self.progress.dest_path.as_str(),
        };
        after_last_slash(path)
    }

    /// The arrow of the direction.
    pub fn direction_icon(&self) -> (r: &'static str)
        ensures
            r@ == (match self.progress.direction {
                TransferDirection::Upload => "⬆️"@,
                TransferDirection::Download => "⬇️"@,
            }),
    {
        match self.progress.direction {
            TransferDirection::Upload => "⬆️",
            TransferDirection::Download => "⬇️",
        }
    }

    /// The icon of the state.
    pub fn status_icon(&self) -> (r: &'static str)
        ensures
            r@ == (match self.progress.state {
                TransferState::Pending => "⏳"@,
                TransferState::InProgress => "🔄"@,
                TransferState::Paused => "⏸"@,
                TransferState::Completed => "✅"@,
                TransferState::Failed => "❌"@,
                TransferState::Cancelled => "🚫"@,
            }),
    {
        match self.progress.state {
            TransferState::Pending => "⏳",
            TransferState::InProgress => "🔄",
            TransferState::Paused => "⏸",
            TransferState::Completed => "✅",
            TransferState::Failed => "❌",
            TransferState::Cancelled => "🚫",
        }
    }

    /// The name of the state.
    pub fn status_text(&self) -> (r: &'static str)
        ensures
            r@ == (match self.progress.state {
                TransferState::Pending => "Pending"@,
                TransferState::InProgress => "In Progress"@,
                TransferState::Paused => "Paused"@,
                TransferState::Completed => "Completed"@,
                TransferState::Failed => "Failed"@,
                TransferState::Cancelled => "Cancelled"@,
            }),
    {
        match self.progress.state {
            TransferState::Pending => "Pending",
            TransferState::InProgress => "In Progress",
            TransferState::Paused => "Paused",
            TransferState::Completed => "Completed",
            TransferState::Failed => "Failed",
            TransferState::Cancelled => "Cancelled",
        }
    }

    /// Whether the transfer can be paused: it is running.
    pub fn can_pause(&self) -> (r: bool)
        ensures
            r == (self.progress.state == TransferState::InProgress),
    {
        self.progress.state == TransferState::InProgress
    }

    /// Whether the transfer can be resumed: it is paused.
    pub fn can_resume(&self) -> (r: bool)
        ensures
            r == (self.progress.state == TransferState::Paused),
    {
        self.progress.state == TransferState::Paused
    }

    /// Whether the transfer can be cancelled: it has not ended.
    pub fn can_cancel(&self) -> (r: bool)
        ensures
            r == !terminated(self.progress.state),
    {
        match self.progress.state {
            TransferState::Pending | TransferState::InProgress | TransferState::Paused => true,
            _ => false,
        }
    }

    /// Whether the transfer can be retried: it failed or was cancelled.
    pub fn can_retry(&self) -> (r: bool)
        ensures
            r == (self.progress.state == TransferState::Failed || self.progress.state
                == TransferState::Cancelled),
    {
        match self.progress.state {
            TransferState::Failed | TransferState::Cancelled => true,
            _ => false,
        }
    }

    /// Whether the transfer has ended.
    pub fn is_terminated(&self) -> (r: bool)
        ensures
            r == terminated(self.progress.state),
    {
        self.progress.is_terminated()
    }
}

/// Which transfers the queue lists.
#[derive(Debug, Clone, Copy, PartialEq, Eq, Structural)]
pub enum TransferFilter {
    All,
    /// Pending, running or paused.
    Active,
    Completed,
    /// Failed or cancelled.
    Failed,
}

/// Whether a transfer in state `s` passes the filter `f`.
pub open spec fn filter_matches(f: TransferFilter, s: TransferState) -> bool {
    match f {
        TransferFilter::All => true,
        TransferFilter::Active => !terminated(s),
        TransferFilter::Completed => s == TransferState::Completed,
        TransferFilter::Failed => s == TransferState::Failed || s == TransferState::Cancelled,
    }
}

/// The Active, Completed and Failed filters split the transfers between
/// them: every state passes exactly one of the three. Active lists the
/// transfers not yet ended, Completed the completed ones, Failed every
/// transfer that ended without completing (failed or cancelled), and All
/// every transfer.
pub proof fn law_filters_partition(s: TransferState)
    ensures
        filter_matches(TransferFilter::All, s),
        (if filter_matches(TransferFilter::Active, s) { 1int } else { 0int }) + (if filter_matches(
            TransferFilter::Completed,
            s,
        ) { 1int } else { 0int }) + (if filter_matches(TransferFilter::Failed, s) { 1int } else { 0int }) == 1,
        filter_matches(TransferFilter::Active, s) <==> (s == TransferState::Pending || s == TransferState::InProgress
            || s == TransferState::Paused),
        filter_matches(TransferFilter::Completed, s) <==> s == TransferState::Completed,
        filter_matches(TransferFilter::Failed, s) <==> (s == TransferState::Failed || s == TransferState::Cancelled),
{
}

impl TransferFilter {
    /// The filter's label.
    pub fn title(&self) -> (r: &'static str)
        ensures
            r@ == (match *self {
                TransferFilter::All => "All"@,
                TransferFilter::Active => "Active"@,
                TransferFilter::Completed => "Completed"@,
                TransferFilter::Failed => "Failed"@,
            }),
    {
        match self {
            TransferFilter::All => "All",
            TransferFilter::Active => "Active",
            TransferFilter::Completed => "Completed",
            TransferFilter::Failed => "Failed",
        }
    }

    /// Every filter, in the order the queue offers them.
    pub fn all() -> (r: Vec<TransferFilter>)
        ensures
            r@ == seq![
                TransferFilter::All,
                TransferFilter::Active,
                TransferFilter::Completed,
                TransferFilter::Failed,
            ],
    {
        let r = vec![
            TransferFilter::All,
            TransferFilter::Active,
            TransferFilter::Completed,
            TransferFilter::Failed,
        ];
        proof {
            assert(r@ =~= seq![
                TransferFilter::All,
                TransferFilter::Active,
                TransferFilter::Completed,
                TransferFilter::Failed,
            ]);
        }
        r
    }

    /// Whether `item` passes the filter.
    pub fn matches(&self, item: &TransferItem) -> (r: bool)
        ensures
            r == filter_matches(*self, item.progress.state),
    {
        match self {
            TransferFilter::All => true,
            TransferFilter::Active => !item.is_terminated(),
            TransferFilter::Completed => item.progress.state == TransferState::Completed,
            TransferFilter::Failed => item.progress.state == TransferState::Failed
                || item.progress.state == TransferState::Cancelled,
        }
    }
}

/// The overall progress of the transfers that have not ended.
#[derive(Debug, Clone, Copy, PartialEq, Eq, Structural)]
pub enum ProgressSummary {
    /// Every transfer has ended (the queue shows 100%).
    NothingActive,
    /// Bytes moved and bytes to move, summed over the transfers that have
    /// not ended.
    Bytes { transferred: u128, total: u128 },
}

/// The identifiers of a sequence of items.
pub open spec fn item_ids(s: Seq<TransferItem>) -> Seq<TransferTaskId> {
    s.map_values(|t: TransferItem| t.id)
}

/// The first item with identifier `id`.
pub open spec fn lookup(s: Seq<TransferItem>, id: TransferTaskId) -> Option<TransferItem>
    decreases s.len(),
{
    if s.len() == 0 {
        None
    } else if s[0].id == id {
        Some(s[0])
    } else {
        lookup(s.drop_first(), id)
    }
}

/// The items that the filter passes, one per identifier of `order` that
/// names a queued item, in the order of `order`.
pub open spec fn shown_items(order: Seq<TransferTaskId>, items: Seq<TransferItem>, filter: TransferFilter) -> Seq<TransferItem>
    decreases order.len(),
{
    if order.len() == 0 {
        Seq::<TransferItem>::empty()
    } else {
        let rest = shown_items(order.drop_last(), items, filter);
        match lookup(items, order.last()) {
            Some(t) => if filter_matches(filter, t.progress.state) {
                rest.push(t)
            } else {
                rest
            },
            None => rest,
        }
    }
}

/// Whether the transfer `id` is queued and has ended.
pub open spec fn ended_id(s: Seq<TransferItem>, id: TransferTaskId) -> bool {
    match lookup(s, id) {
        Some(t) => terminated(t.progress.state),
        None => false,
    }
}

/// The sum of a measure over the items that have not ended.
pub open spec fn active_sum(s: Seq<TransferItem>, transferred: bool) -> int
    decreases s.len(),
{
    if s.len() == 0 {
        0
    } else {
        active_sum(s.drop_last(), transferred) + if terminated(s.last().progress.state) {
            0int
        } else if transferred {
            s.last().progress.transferred_bytes as int
        } else {
            s.last().progress.total_bytes as int
        }
    }
}

/// The number of items that have not ended.
pub open spec fn active_items(s: Seq<TransferItem>) -> nat
    decreases s.len(),
{
    if s.len() == 0 {
        0
    } else {
        active_items(s.drop_last()) + if terminated(s.last().progress.state) {
            0nat
        } else {
            1nat
        }
    }
}

/// The transfer queue.
pub struct TransferQueueView {
    items: Vec<TransferItem>,
    order: Vec<TransferTaskId>,
    filter: TransferFilter,
    collapsed: bool,
    show_details: bool,
}

impl TransferQueueView {
    /// The transfers, one per identifier.
    pub closed spec fn items_spec(&self) -> Seq<TransferItem> {
        self.items@
    }

    /// The display order (an identifier appears once per time it was
    /// queued).
    pub closed spec fn order_spec(&self) -> Seq<TransferTaskId> {
        self.order@
    }

    /// The filter.
    pub closed spec fn filter_spec(&self) -> TransferFilter {
        self.filter
    }

    /// Whether the queue is folded.
    pub closed spec fn collapsed_spec(&self) -> bool {
        self.collapsed
    }

    /// Well-formedness: one item per identifier.
    pub open spec fn wf(&self) -> bool {
        forall|i: int, j: int|
            0 <= i < self.items_spec().len() && 0 <= j < self.items_spec().len() && i != j
                ==> self.items_spec()[i].id != self.items_spec()[j].id
    }

    /// An empty queue that lists everything.
    pub fn new() -> (r: TransferQueueView)
        ensures
            r.wf(),
            r.items_spec().len() == 0,
            r.order_spec().len() == 0,
            r.filter_spec() == TransferFilter::All,
            !r.collapsed_spec(),
    {
        TransferQueueView {
            items: Vec::new(),
            order: Vec::new(),
            filter: TransferFilter::All,
            collapsed: false,
            show_details: false,
        }
    }

    fn position(&self, id: TransferTaskId) -> (r: Option<usize>)
        ensures
            match r {
                Some(i) => i < self.items_spec().len() && self.items_spec()[i as int].id == id && forall|k: int|
                    0 <= k < i ==> self.items_spec()[k].id != id,
                None => forall|k: int| 0 <= k < self.items_spec().len() ==> self.items_spec()[k].id != id,
            },
    {
        let mut i: usize = 0;
        while i < self.items.len()
            invariant
                0 <= i <= self.items@.len(),
                forall|k: int| 0 <= k < i ==> self.items@[k].id != id,
            decreases self.items@.len() - i,
        {
            if self.items[i].id == id {
                return Some(i);
            }
            i = i + 1;
        }
        None
    }

    /// Queues a transfer. A transfer already queued under `id` is replaced
    /// (in place, collapsed) and listed once more.
    pub fn add_transfer(&mut self, id: TransferTaskId, progress: TransferProgress)
        requires
            old(self).wf(),
        ensures
            final(self).wf(),
            final(self).order_spec() == old(self).order_spec().push(id),
            item_ids(old(self).items_spec()).contains(id) ==> exists|i: int|
                0 <= i < old(self).items_spec().len() && old(self).items_spec()[i].id == id
                    && final(self).items_spec() == old(self).items_spec().update(
                    i,
                    TransferItem { id, progress, expanded: false },
                ),
            !item_ids(old(self).items_spec()).contains(id) ==> final(self).items_spec() == old(self).items_spec().push(TransferItem { id, progress, expanded: false }),
            lookup(final(self).items_spec(), id) == Some(TransferItem { id, progress, expanded: false }),
            final(self).filter_spec() == old(self).filter_spec(),
            final(self).collapsed_spec() == old(self).collapsed_spec(),
    {
        let ghost old_items = self.items@;
        let item = TransferItem::new(id, progress);
        match self.position(id) {
            Some(i) => {
                self.items.set(i, item);
                proof {
                    assert(item_ids(old_items)[i as int] == id);
                    lemma_lookup_first(self.items@, id, i as int);
                    assert forall|a: int, b: int|
                        0 <= a < self.items@.len() && 0 <= b < self.items@.len() && a != b implies self.items@[a].id
                        != self.items@[b].id by {
                        assert(self.items@[a].id == old_items[a].id);
                        assert(self.items@[b].id == old_items[b].id);
                    }
                }
            },
            None => {
                self.items.push(item);
                proof {
                    lemma_lookup_first(self.items@, id, old_items.len() as int);
                    assert forall|k: int| 0 <= k < old_items.len() implies old_items[k].id != id by {}
                    assert(!item_ids(old_items).contains(id)) by {
                        if item_ids(old_items).contains(id) {
                            let k = choose|k: int| 0 <= k < item_ids(old_items).len() && item_ids(old_items)[k] == id;
                            assert(old_items[k].id == id);
                        }
                    }
                }
            },
        }
        self.order.push(id);
        proof {
            if item_ids(old_items).contains(id) {
                let k = choose|k: int| 0 <= k < item_ids(old_items).len() && item_ids(old_items)[k] == id;
                assert(old_items[k].id == id);
            }
        }
    }

    /// Replaces the progress of the transfer `id`, when queued.
    pub fn update_progress(&mut self, id: TransferTaskId, progress: TransferProgress)
        requires
            old(self).wf(),
        ensures
            final(self).wf(),
            final(self).order_spec() == old(self).order_spec(),
            final(self).filter_spec() == old(self).filter_spec(),
            final(self).collapsed_spec() == old(self).collapsed_spec(),
            item_ids(old(self).items_spec()).contains(id) ==> exists|i: int|
                0 <= i < old(self).items_spec().len() && old(self).items_spec()[i].id == id
                    && final(self).items_spec() == old(self).items_spec().update(
                    i,
                    TransferItem { progress, ..old(self).items_spec()[i] },
                ),
            !item_ids(old(self).items_spec()).contains(id) ==> final(self).items_spec() == old(self).items_spec(),
    {
        let ghost old_items = self.items@;
        match self.position(id) {
            Some(i) => {
                self.items[i].progress = progress;
                proof {
                    assert(item_ids(old_items)[i as int] == id);
                    assert forall|a: int, b: int|
                        0 <= a < self.items@.len() && 0 <= b < self.items@.len() && a != b implies self.items@[a].id
                        != self.items@[b].id by {
                        assert(self.items@[a].id == old_items[a].id);
                        assert(self.items@[b].id == old_items[b].id);
                    }
                }
            },
            None => {
                proof {
                    if item_ids(old_items).contains(id) {
                        let k = choose|k: int| 0 <= k < item_ids(old_items).len() && item_ids(old_items)[k] == id;
                        assert(old_items[k].id == id);
                    }
                }
            },
        }
    }

    /// Sets the state of the transfer `id`, when queued.
    pub fn update_transfer_state(&mut self, id: TransferTaskId, state: TransferState)
        requires
            old(self).wf(),
        ensures
            final(self).wf(),
            final(self).order_spec() == old(self).order_spec(),
            final(self).filter_spec() == old(self).filter_spec(),
            final(self).collapsed_spec() == old(self).collapsed_spec(),
            item_ids(old(self).items_spec()).contains(id) ==> exists|i: int|
                0 <= i < old(self).items_spec().len() && old(self).items_spec()[i].id == id
                    && final(self).items_spec() == old(self).items_spec().update(
                    i,
                    TransferItem {
                        progress: TransferProgress { state, ..old(self).items_spec()[i].progress },
                        ..old(self).items_spec()[i]
                    },
                ),
            !item_ids(old(self).items_spec()).contains(id) ==> final(self).items_spec() == old(self).items_spec(),
    {
        let ghost old_items = self.items@;
        match self.position(id) {
            Some(i) => {
                self.items[i].progress.state = state;
                proof {
                    assert(item_ids(old_items)[i as int] == id);
                    assert forall|a: int, b: int|
                        0 <= a < self.items@.len() && 0 <= b < self.items@.len() && a != b implies self.items@[a].id
                        != self.items@[b].id by {
                        assert(self.items@[a].id == old_items[a].id);
                        assert(self.items@[b].id == old_items[b].id);
                    }
                }
            },
            None => {
                proof {
                    if item_ids(old_items).contains(id) {
                        let k = choose|k: int| 0 <= k < item_ids(old_items).len() && item_ids(old_items)[k] == id;
                        assert(old_items[k].id == id);
                    }
                }
            },
        }
    }

    /// Drops the transfer `id` and every listing of it.
    pub fn remove_transfer(&mut self, id: TransferTaskId)
        requires
            old(self).wf(),
        ensures
            final(self).wf(),
            final(self).items_spec() == old(self).items_spec().filter(|t: TransferItem| t.id != id),
            final(self).order_spec() == old(self).order_spec().filter(|x: TransferTaskId| x != id),
            lookup(final(self).items_spec(), id) == None::<TransferItem>,
            !final(self).order_spec().contains(id),
            final(self).filter_spec() == old(self).filter_spec(),
            final(self).collapsed_spec() == old(self).collapsed_spec(),
    {
        self.retain_order(Keep::Other(id));
        self.retain_items(Keep::Other(id));
        proof {
            let s = self.items@;
            assert forall|k: int| 0 <= k < s.len() implies s[k].id != id by {
                old(self).items@.lemma_filter_pred(item_pred(Keep::Other(id)), k);
            }
            lemma_lookup_none(s, id);
            if self.order@.contains(id) {
                let k = choose|k: int| 0 <= k < self.order@.len() && self.order@[k] == id;
                old(self).order@.lemma_filter_pred(order_pred(Keep::Other(id), old(self).items@), k);
            }
        }
    }

    /// Drops every transfer that has ended, and its listings.
    pub fn clear_completed(&mut self)
        requires
            old(self).wf(),
        ensures
            final(self).wf(),
            final(self).items_spec() == old(self).items_spec().filter(
                |t: TransferItem| !terminated(t.progress.state),
            ),
            final(self).order_spec() == old(self).order_spec().filter(
                |x: TransferTaskId| !ended_id(old(self).items_spec(), x),
            ),
            forall|i: int|
                0 <= i < final(self).items_spec().len() ==> !terminated(
                    #[trigger] final(self).items_spec()[i].progress.state,
                ),
            active_items(final(self).items_spec()) == active_items(old(self).items_spec()),
            final(self).filter_spec() == old(self).filter_spec(),
            final(self).collapsed_spec() == old(self).collapsed_spec(),
    {
        self.retain_order(Keep::Active);
        self.retain_items(Keep::Active);
        proof {
            let s = self.items@;
            assert forall|i: int| 0 <= i < s.len() implies !terminated(#[trigger] s[i].progress.state) by {
                old(self).items@.lemma_filter_pred(item_pred(Keep::Active), i);
            }
            lemma_active_filter(old(self).items@);
        }
    }

    /// Drops every transfer.
    pub fn clear_all(&mut self)
        ensures
            final(self).wf(),
            final(self).items_spec().len() == 0,
            final(self).order_spec().len() == 0,
            final(self).filter_spec() == old(self).filter_spec(),
            final(self).collapsed_spec() == old(self).collapsed_spec(),
    {
        self.items = Vec::new();
        self.order = Vec::new();
    }

    /// Sets the filter.
    pub fn set_filter(&mut self, filter: TransferFilter)
        ensures
            final(self).filter_spec() == filter,
            final(self).items_spec() == old(self).items_spec(),
            final(self).order_spec() == old(self).order_spec(),
            final(self).collapsed_spec() == old(self).collapsed_spec(),
    {
        self.filter = filter;
    }

    /// The filter.
    pub fn filter(&self) -> (r: TransferFilter)
        ensures
            r == self.filter_spec(),
    {
        self.filter
    }

    /// Folds or unfolds the queue.
    pub fn set_collapsed(&mut self, collapsed: bool)
        ensures
            final(self).collapsed_spec() == collapsed,
            final(self).items_spec() == old(self).items_spec(),
            final(self).order_spec() == old(self).order_spec(),
            final(self).filter_spec() == old(self).filter_spec(),
    {
        self.collapsed = collapsed;
    }

    /// Flips the folding.
    pub fn toggle_collapsed(&mut self)
        ensures
            final(self).collapsed_spec() == !old(self).collapsed_spec(),
            final(self).items_spec() == old(self).items_spec(),
            final(self).order_spec() == old(self).order_spec(),
            final(self).filter_spec() == old(self).filter_spec(),
    {
        self.collapsed = !self.collapsed;
    }

    /// Whether the queue is folded.
    pub fn is_collapsed(&self) -> (r: bool)
        ensures
            r == self.collapsed_spec(),
    {
        self.collapsed
    }

    /// The number of transfers.
    pub fn transfer_count(&self) -> (r: usize)
        ensures
            r == self.items_spec().len(),
    {
        self.items.len()
    }

    /// The number of transfers that have not ended.
    pub fn active_count(&self) -> (r: usize)
        ensures
            r == active_items(self.items_spec()),
    {
        let mut n: usize = 0;
        let mut k: usize = 0;
        while k < self.items.len()
            invariant
                0 <= k <= self.items@.len(),
                n == active_items(self.items@.subrange(0, k as int)),
                n <= k,
            decreases self.items@.len() - k,
        {
            proof {
                assert(self.items@.subrange(0, k + 1).drop_last() =~= self.items@.subrange(0, k as int));
            }
            if !self.items[k].is_terminated() {
                n = n + 1;
            }
            k = k + 1;
        }
        proof {
            assert(self.items@.subrange(0, k as int) =~= self.items@);
        }
        n
    }

    /// The transfers the filter passes, in display order.
    pub fn filtered_transfers(&self) -> (r: Vec<&TransferItem>)
        ensures
            r@.map_values(|t: &TransferItem| *t) == shown_items(self.order_spec(), self.items_spec(), self.filter_spec()),
            forall|i: int|
                0 <= i < r@.len() ==> filter_matches(self.filter_spec(), #[trigger] r@[i].progress.state)
                    && self.order_spec().contains(r@[i].id) && lookup(self.items_spec(), r@[i].id) == Some(*r@[i]),
    {
        let mut r: Vec<&TransferItem> = Vec::new();
        let mut k: usize = 0;
        while k < self.order.len()
            invariant
                0 <= k <= self.order@.len(),
                forall|i: int|
                    0 <= i < r@.len() ==> filter_matches(self.filter, #[trigger] r@[i].progress.state)
                        && self.order@.contains(r@[i].id) && lookup(self.items@, r@[i].id) == Some(*r@[i]),
                r@.map_values(|t: &TransferItem| *t) == shown_items(self.order@.subrange(0, k as int), self.items@, self.filter),
            decreases self.order@.len() - k,
        {
            let id = self.order[k];
            let ghost before = r@;
            proof {
                assert(self.order@.subrange(0, k + 1).drop_last() =~= self.order@.subrange(0, k as int));
                assert(self.order@.subrange(0, k + 1).last() == id);
            }
            match self.position(id) {
                Some(i) => {
                    proof {
                        lemma_lookup_first(self.items@, id, i as int);
                    }
                    if self.filter.matches(&self.items[i]) {
                        r.push(&self.items[i]);
                        proof {
                            assert(r@.map_values(|t: &TransferItem| *t) =~= before.map_values(|t: &TransferItem| *t).push(self.items@[i as int]));
                        }
                    }
                },
                None => {
                    proof {
                        lemma_lookup_absent(self.items@, id);
                    }
                },
            }
            k = k + 1;
        }
        proof {
            assert(self.order@.subrange(0, k as int) =~= self.order@);
        }
        r
    }

    /// The overall progress of the transfers that have not ended.
    pub fn progress_summary(&self) -> (r: ProgressSummary)
        ensures
            active_items(self.items_spec()) == 0 ==> r == ProgressSummary::NothingActive,
            active_items(self.items_spec()) > 0 ==> r == (ProgressSummary::Bytes {
                transferred: active_sum(self.items_spec(), true) as u128,
                total: active_sum(self.items_spec(), false) as u128,
            }),
    {
        let mut n: usize = 0;
        let mut moved: u128 = 0;
        let mut total: u128 = 0;
        let mut k: usize = 0;
        while k < self.items.len()
            invariant
                0 <= k <= self.items@.len(),
                n == active_items(self.items@.subrange(0, k as int)),
                moved == active_sum(self.items@.subrange(0, k as int), true),
                total == active_sum(self.items@.subrange(0, k as int), false),
                n <= k,
                moved <= k * 0xffff_ffff_ffff_ffffu64,
                total <= k * 0xffff_ffff_ffff_ffffu64,
            decreases self.items@.len() - k,
        {
            proof {
                assert(self.items@.subrange(0, k + 1).drop_last() =~= self.items@.subrange(0, k as int));
                assert(k * 0xffff_ffff_ffff_ffffu64 + 0xffff_ffff_ffff_ffffu64 == (k + 1) * 0xffff_ffff_ffff_ffffu64) by (nonlinear_arith);
                assert((k + 1) * 0xffff_ffff_ffff_ffffu64 <= 0xffff_ffff_ffff_ffffu64 * 0xffff_ffff_ffff_ffffu64) by (nonlinear_arith)
                    requires k + 1 <= 0xffff_ffff_ffff_ffffu64;
            }
            if !self.items[k].is_terminated() {
                n = n + 1;
                moved = moved + self.items[k].progress.transferred_bytes as u128;
                total = total + self.items[k].progress.total_bytes as u128;
            }
            k = k + 1;
        }
        proof {
            assert(self.items@.subrange(0, k as int) =~= self.items@);
        }
        if n == 0 {
            ProgressSummary::NothingActive
        } else {
            ProgressSummary::Bytes { transferred: moved, total }
        }
    }

    fn retain_items(&mut self, k: Keep)
        requires
            old(self).wf(),
        ensures
            final(self).wf(),
            final(self).items_spec() == old(self).items_spec().filter(item_pred(k)),
            final(self).order_spec() == old(self).order_spec(),
            final(self).filter_spec() == old(self).filter_spec(),
            final(self).collapsed_spec() == old(self).collapsed_spec(),
    {
        let ghost s = self.items@;
        let ghost p = item_pred(k);
        let mut out: Vec<TransferItem> = Vec::new();
        let mut i: usize = 0;
        while i < self.items.len()
            invariant
                self.items@ == s,
                0 <= i <= s.len(),
                p == item_pred(k),
                out@ == s.subrange(0, i as int).filter(p),
            decreases s.len() - i,
        {
            let t = &self.items[i];
            proof {
                assert(s.subrange(0, i + 1) =~= s.subrange(0, i as int).push(*t));
                lemma_filter_push(s.subrange(0, i as int), p, *t);
            }
            if keeps_item(&k, t) {
                out.push(t.clone());
            }
            i = i + 1;
        }
        proof {
            assert(s.subrange(0, i as int) =~= s);
            lemma_filter_distinct(s, p);
        }
        self.items = out;
    }

    fn retain_order(&mut self, k: Keep)
        requires
            old(self).wf(),
        ensures
            final(self).order_spec() == old(self).order_spec().filter(order_pred(k, old(self).items_spec())),
            final(self).items_spec() == old(self).items_spec(),
            final(self).filter_spec() == old(self).filter_spec(),
            final(self).collapsed_spec() == old(self).collapsed_spec(),
            final(self).wf(),
    {
        let ghost o = self.order@;
        let ghost p = order_pred(k, self.items@);
        let mut out: Vec<TransferTaskId> = Vec::new();
        let mut i: usize = 0;
        while i < self.order.len()
            invariant
                self.order@ == o,
                0 <= i <= o.len(),
                p == order_pred(k, self.items@),
                self.wf(),
                out@ == o.subrange(0, i as int).filter(p),
            decreases o.len() - i,
        {
            let x = self.order[i];
            proof {
                assert(o.subrange(0, i + 1) =~= o.subrange(0, i as int).push(x));
                lemma_filter_push(o.subrange(0, i as int), p, x);
            }
            let keep = match k {
                Keep::Other(id) => x != id,
                Keep::Active => match self.position(x) {
                    Some(j) => {
                        proof {
                            lemma_lookup_first(self.items@, x, j as int);
                        }
                        !self.items[j].is_terminated()
                    },
                    None => {
                        proof {
                            lemma_lookup_none(self.items@, x);
                        }
                        true
                    },
                },
            };
            if keep {
                out.push(x);
            }
            i = i + 1;
        }
        proof {
            assert(o.subrange(0, i as int) =~= o);
        }
        self.order = out;
    }
}

/// What a bulk removal keeps.
#[derive(Clone, Copy)]
enum Keep {
    /// Everything but the transfer with this identifier.
    Other(TransferTaskId),
    /// The transfers that have not ended.
    Active,
}

spec fn item_pred(k: Keep) -> spec_fn(TransferItem) -> bool {
    match k {
        Keep::Other(id) => |t: TransferItem| t.id != id,
        Keep::Active => |t: TransferItem| !terminated(t.progress.state),
    }
}

spec fn order_pred(k: Keep, s: Seq<TransferItem>) -> spec_fn(TransferTaskId) -> bool {
    match k {
        Keep::Other(id) => |x: TransferTaskId| x != id,
        Keep::Active => |x: TransferTaskId| !ended_id(s, x),
    }
}

fn keeps_item(k: &Keep, t: &TransferItem) -> (r: bool)
    ensures
        r == item_pred(*k)(*t),
{
    match k {
        Keep::Other(id) => t.id != *id,
        Keep::Active => !t.is_terminated(),
    }
}


proof fn lemma_filter_distinct(s: Seq<TransferItem>, p: spec_fn(TransferItem) -> bool)
    requires
        forall|i: int, j: int| 0 <= i < s.len() && 0 <= j < s.len() && i != j ==> s[i].id != s[j].id,
    ensures
        forall|i: int, j: int|
            0 <= i < s.filter(p).len() && 0 <= j < s.filter(p).len() && i != j ==> s.filter(p)[i].id
                != s.filter(p)[j].id,
    decreases s.len(),
{
    reveal(Seq::filter);
    if s.len() > 0 {
        let d = s.drop_last();
        assert forall|i: int, j: int| 0 <= i < d.len() && 0 <= j < d.len() && i != j implies d[i].id != d[j].id by {
            assert(d[i] == s[i]);
            assert(d[j] == s[j]);
        }
        lemma_filter_distinct(d, p);
        if p(s.last()) {
            let f = d.filter(p);
            assert forall|i: int| 0 <= i < f.len() implies f[i].id != s.last().id by {
                assert(f.contains(f[i]));
                d.lemma_filter_contains_rev(p, f[i]);
                let k = choose|k: int| 0 <= k < d.len() && d[k] == f[i];
                assert(s[k] == f[i]);
            }
        }
    }
}

proof fn lemma_active_filter(s: Seq<TransferItem>)
    ensures
        active_items(s.filter(item_pred(Keep::Active))) == active_items(s),
    decreases s.len(),
{
    if s.len() > 0 {
        let p = item_pred(Keep::Active);
        lemma_active_filter(s.drop_last());
        assert(s =~= s.drop_last().push(s.last()));
        lemma_filter_push(s.drop_last(), p, s.last());
        if p(s.last()) {
            assert(s.filter(p).drop_last() =~= s.drop_last().filter(p));
        }
    }
}

proof fn lemma_lookup_none(s: Seq<TransferItem>, id: TransferTaskId)
    requires
        forall|k: int| 0 <= k < s.len() ==> s[k].id != id,
    ensures
        lookup(s, id) == None::<TransferItem>,
    decreases s.len(),
{
    if s.len() > 0 {
        assert forall|k: int| 0 <= k < s.len() - 1 implies s.drop_first()[k].id != id by {
            assert(s.drop_first()[k] == s[k + 1]);
        }
        lemma_lookup_none(s.drop_first(), id);
    }
}

proof fn lemma_lookup_absent(s: Seq<TransferItem>, id: TransferTaskId)
    requires
        forall|k: int| 0 <= k < s.len() ==> s[k].id != id,
    ensures
        lookup(s, id) is None,
    decreases s.len(),
{
    if s.len() > 0 {
        assert forall|k: int| 0 <= k < s.len() - 1 implies s.drop_first()[k].id != id by {
            assert(s.drop_first()[k] == s[k + 1]);
        }
        lemma_lookup_absent(s.drop_first(), id);
    }
}

proof fn lemma_lookup_first(s: Seq<TransferItem>, id: TransferTaskId, i: int)
    requires
        0 <= i < s.len(),
        s[i].id == id,
        forall|k: int| 0 <= k < i ==> s[k].id != id,
    ensures
        lookup(s, id) == Some(s[i]),
    decreases s.len(),
{
    if i > 0 {
        assert forall|k: int| 0 <= k < i - 1 implies s.drop_first()[k].id != id by {
            assert(s.drop_first()[k] == s[k + 1]);
        }
        lemma_lookup_first(s.drop_first(), id, i - 1);
    }
}

} // verus!
