//! The confirmation asked before deleting stored hosts.

use vstd::prelude::*;
use vstd::string::*;

use crate::entities::HostId;
use crate::text::{decimal, owned, push_decimal, str_eq};

verus! {

/// What is to be deleted.
#[derive(Debug)]
pub enum DeleteTarget {
    /// One host.
    Host { id: HostId, name: String },
    /// Several hosts; `count` is the number of identifiers.
    Hosts { ids: Vec<HostId>, count: usize },
}

/// The answer of the confirmation.
#[derive(Debug)]
pub enum DeleteConfirmEvent {
    Confirmed(DeleteTarget),
    Cancelled,
}

impl DeleteTarget {
    /// One host.
    pub fn host(id: HostId, name: String) -> (r: DeleteTarget)
        ensures
            r == (DeleteTarget::Host { id, name }),
    {
        DeleteTarget::Host { id, name }
    }

    /// Several hosts.
    pub fn hosts(ids: Vec<HostId>) -> (r: DeleteTarget)
        ensures
            r matches DeleteTarget::Hosts { ids: v, count } && v == ids && count == ids@.len(),
    {
        let count = ids.len();
        DeleteTarget::Hosts { ids, count }
    }

    /// The host's identifier, for one host.
    pub fn host_id(&self) -> (r: Option<HostId>)
        ensures
            r == (match *self {
                DeleteTarget::Host { id, .. } => Some(id),
                DeleteTarget::Hosts { .. } => None,
            }),
    {
        match self {
            DeleteTarget::Host { id, .. } => Some(*id),
            DeleteTarget::Hosts { .. } => None,
        }
    }

    /// The host's name, for one host.
    pub fn host_name(&self) -> (r: Option<&str>)
        ensures
            match *self {
                DeleteTarget::Host { name, .. } => r matches Some(n) && n@ == name@,
                DeleteTarget::Hosts { .. } => r is None,
            },
    {
        match self {
            DeleteTarget::Host { name, .. } => Some(name.as_str()),
            DeleteTarget::Hosts { .. } => None,
        }
    }

    /// The question asked.
    pub fn description(&self) -> (r: String)
        ensures
            r@ == (match *self {
                DeleteTarget::Host { name, .. } => "你确定要删除主机 \""@ + name@ + "\" 吗？"@,
                DeleteTarget::Hosts { count, .. } => "你确定要删除选中的 "@ + decimal(count as nat)
                    + " 个主机吗？"@,
            }),
    {
        match self {
            DeleteTarget::Host { name, .. } => {
                let mut s = owned("你确定要删除主机 \"");
                s.append(name.as_str());
                s.append("\" 吗？");
                s
            },
            DeleteTarget::Hosts { count, .. } => {
                let mut s = owned("你确定要删除选中的 ");
                push_decimal(&mut s, *count as u64);
                s.append(" 个主机吗？");
                s
            },
        }
    }

    /// The dialog's title.
    pub fn title(&self) -> (r: &'static str)
        ensures
            r@ == (match *self {
                DeleteTarget::Host { .. } => "删除主机"@,
                DeleteTarget::Hosts { .. } => "删除多个主机"@,
            }),
    {
        match self {
            DeleteTarget::Host { .. } => "删除主机",
            DeleteTarget::Hosts { .. } => "删除多个主机",
        }
    }
}

/// Whether two targets name the same hosts.
pub open spec fn same_target(a: DeleteTarget, b: DeleteTarget) -> bool {
    match (a, b) {
        (DeleteTarget::Host { id: i, name: n }, DeleteTarget::Host { id: j, name: m }) => i == j && n == m,
        (DeleteTarget::Hosts { ids: v, count: c }, DeleteTarget::Hosts { ids: w, count: d }) => v@ == w@ && c == d,
        _ => false,
    }
}

/// Whether `events` is `before` with a confirmation of `target` added.
pub open spec fn confirmed_after(events: Seq<DeleteConfirmEvent>, before: Seq<DeleteConfirmEvent>, target: DeleteTarget) -> bool {
    &&& events.len() == before.len() + 1
    &&& events.drop_last() == before
    &&& events.last() matches DeleteConfirmEvent::Confirmed(t) && same_target(t, target)
}

impl Clone for DeleteTarget {
    fn clone(&self) -> (r: Self)
        ensures
            same_target(r, *self),
    {
        match self {
            DeleteTarget::Host { id, name } => DeleteTarget::Host { id: *id, name: name.clone() },
            DeleteTarget::Hosts { ids, count } => {
                let mut v: Vec<HostId> = Vec::new();
                let mut i: usize = 0;
                while i < ids.len()
                    invariant
                        0 <= i <= ids@.len(),
                        v@ == ids@.subrange(0, i as int),
                    decreases ids@.len() - i,
                {
                    v.push(ids[i]);
                    i = i + 1;
                    proof {
                        assert(v@ =~= ids@.subrange(0, i as int));
                    }
                }
                proof {
                    assert(v@ =~= ids@);
                }
                DeleteTarget::Hosts { ids: v, count: *count }
            },
        }
    }
}

/// The confirmation's state.
pub struct DeleteConfirmDialog {
    pub target: DeleteTarget,
    /// The answers not yet handed out.
    pub events: Vec<DeleteConfirmEvent>,
}

impl DeleteConfirmDialog {
    /// A confirmation for `target`.
    pub fn new(target: DeleteTarget) -> (r: DeleteConfirmDialog)
        ensures
            r.target == target,
            r.events@.len() == 0,
    {
        DeleteConfirmDialog { target, events: Vec::new() }
    }

    /// A confirmation for deleting one host.
    pub fn for_host(id: HostId, name: String) -> (r: DeleteConfirmDialog)
        ensures
            r.target == (DeleteTarget::Host { id, name }),
            r.events@.len() == 0,
    {
        DeleteConfirmDialog::new(DeleteTarget::host(id, name))
    }

    /// What is to be deleted.
    pub fn target(&self) -> (r: &DeleteTarget)
        ensures
            *r == self.target,
    {
        &self.target
    }

    /// Confirms the deletion of the target.
    pub fn confirm(&mut self)
        ensures
            final(self).target == old(self).target,
            confirmed_after(final(self).events@, old(self).events@, old(self).target),
    {
        let t = self.target.clone();
        let ghost before = self.events@;
        self.events.push(DeleteConfirmEvent::Confirmed(t));
        proof {
            assert(self.events@.drop_last() =~= before);
        }
    }

    /// Cancels the deletion.
    pub fn cancel(&mut self)
        ensures
            final(self).target == old(self).target,
            final(self).events@ == old(self).events@.push(DeleteConfirmEvent::Cancelled),
    {
        self.events.push(DeleteConfirmEvent::Cancelled);
    }

    /// Escape cancels, enter confirms, other keys do nothing.
    pub fn handle_key_down(&mut self, key: &str)
        ensures
            final(self).target == old(self).target,
            key@ == "escape"@ ==> final(self).events@ == old(self).events@.push(DeleteConfirmEvent::Cancelled),
            key@ == "enter"@ ==> confirmed_after(final(self).events@, old(self).events@, old(self).target),
            key@ != "escape"@ && key@ != "enter"@ ==> final(self).events@ == old(self).events@,
    {
        proof {
            reveal_strlit("escape");
            reveal_strlit("enter");
            assert("escape"@[1] != "enter"@[1]);
        }
        if str_eq(key, "escape") {
            self.cancel();
        } else if str_eq(key, "enter") {
            self.confirm();
        }
    }

    /// Hands out the answers, oldest first, and forgets them.
    pub fn take_events(&mut self) -> (r: Vec<DeleteConfirmEvent>)
        ensures
            r@ == old(self).events@,
            final(self).events@.len() == 0,
            final(self).target == old(self).target,
    {
        let mut r: Vec<DeleteConfirmEvent> = Vec::new();
        std::mem::swap(&mut r, &mut self.events);
        r
    }
}

} // verus!
