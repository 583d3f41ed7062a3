use vstd::prelude::*;

use crate::query_contexts::{swept_context, QueryContext};

verus! {

/// A change to the set of live handles.
pub enum RegistryOp {
    Register(u64),
    Unregister(u64),
}

/// The live handles after one change.
pub open spec fn apply_op(live: Set<u64>, op: RegistryOp) -> Set<u64> {
    match op {
        RegistryOp::Register(h) => live.insert(h),
        RegistryOp::Unregister(h) => live.remove(h),
    }
}

/// The live handles after a run of changes, in order.
pub open spec fn apply_ops(live: Set<u64>, ops: Seq<RegistryOp>) -> Set<u64>
    decreases ops.len(),
{
    if ops.len() == 0 {
        live
    } else {
        apply_op(apply_ops(live, ops.drop_last()), ops.last())
    }
}

/// The live query contexts, each under the handle it was registered with.
/// Handles are never reused, and a context is reachable from the registry
/// exactly while it is registered.
#[derive(Debug)]
pub struct ContextRegistry {
    entries: Vec<(u64, QueryContext)>,
    next_handle: u64,
}

impl ContextRegistry {
    /// The registered contexts with their handles, oldest first.
    pub closed spec fn contexts(&self) -> Seq<(u64, QueryContext)> {
        self.entries@
    }

    /// The handle the next registration will receive.
    pub closed spec fn spec_next_handle(&self) -> u64 {
        self.next_handle
    }

    pub open spec fn handles(&self) -> Seq<u64> {
        self.contexts().map_values(|e: (u64, QueryContext)| e.0)
    }

    pub open spec fn live(&self) -> Set<u64> {
        self.handles().to_set()
    }

    /// Handles are distinct and below the next one, and every context is
    /// well formed.
    pub open spec fn wf(&self) -> bool {
        &&& self.handles().no_duplicates()
        &&& forall|i: int| 0 <= i < self.contexts().len() ==> #[trigger] self.contexts()[i].0
            < self.spec_next_handle()
        &&& forall|i: int| 0 <= i < self.contexts().len() ==> #[trigger] self.contexts()[i].1.wf()
    }

    pub fn new() -> (r: Self)
        ensures
            r.wf(),
            r.contexts() == Seq::<(u64, QueryContext)>::empty(),
            r.spec_next_handle() == 0,
    {
        ContextRegistry { entries: Vec::new(), next_handle: 0 }
    }

    pub fn len(&self) -> (r: usize)
        ensures
            r == self.contexts().len(),
    {
        self.entries.len()
    }

    /// Whether every handle has been given out, so no more registrations can
    /// be taken.
    pub fn handles_exhausted(&self) -> (r: bool)
        ensures
            r == (self.spec_next_handle() == u64::MAX),
    {
        self.next_handle == u64::MAX
    }

    /// Adds `context` under a fresh handle, which is returned.
    pub fn register(&mut self, context: QueryContext) -> (h: u64)
        requires
            old(self).wf(),
            context.wf(),
            old(self).spec_next_handle() < u64::MAX,
        ensures
            final(self).wf(),
            h == old(self).spec_next_handle(),
            final(self).spec_next_handle() == h + 1,
            !old(self).live().contains(h),
            final(self).contexts() == old(self).contexts().push((h, context)),
            final(self).live() == apply_op(old(self).live(), RegistryOp::Register(h)),
    {
        let h = self.next_handle;
        proof {
            assert forall|i: int| 0 <= i < old(self).handles().len() implies old(self).handles()[i]
                != h by {
                assert(old(self).contexts()[i].0 < h);
            }
        }
        self.entries.push((h, context));
        self.next_handle = h + 1;
        proof {
            assert(self.handles() =~= old(self).handles().push(h));
            assert(self.live() =~= old(self).live().insert(h)) by {
                old(self).handles().lemma_push_to_set_commute(h);
            }
        }
        h
    }

    /// Position of `h` among the registered contexts, if it is live.
    fn position(&self, h: u64) -> (r: Option<usize>)
        requires
            self.wf(),
        ensures
            r is None <==> !self.live().contains(h),
            r matches Some(i) ==> i < self.contexts().len() && self.contexts()[i as int].0 == h,
    {
        let n = self.entries.len();
        let mut i: usize = 0;
        while i < n
            invariant
                n == self.contexts().len(),
                0 <= i <= n,
                forall|j: int| 0 <= j < i ==> self.handles()[j] != h,
            decreases n - i,
        {
            if self.entries[i].0 == h {
                assert(self.handles()[i as int] == h);
                return Some(i);
            }
            i = i + 1;
        }
        proof {
            if self.live().contains(h) {
                let k = choose|k: int| 0 <= k < self.handles().len() && self.handles()[k] == h;
            }
        }
        None
    }

    /// Removes the context registered under `h` and hands it back; an
    /// unknown handle changes nothing.
    pub fn unregister(&mut self, h: u64) -> (r: Option<QueryContext>)
        requires
            old(self).wf(),
        ensures
            final(self).wf(),
            final(self).spec_next_handle() == old(self).spec_next_handle(),
            final(self).live() == apply_op(old(self).live(), RegistryOp::Unregister(h)),
            r is None <==> !old(self).live().contains(h),
            r is None ==> final(self).contexts() == old(self).contexts(),
            r matches Some(c) ==> c.wf() && exists|i: int|
                0 <= i < old(self).contexts().len() && old(self).contexts()[i] == (h, c)
                    && final(self).contexts() == old(self).contexts().remove(i),
    {
        match self.position(h) {
            None => {
                proof {
                    assert(self.live() =~= self.live().remove(h));
                }
                None
            },
            Some(i) => {
                let (_, c) = self.entries.remove(i);
                proof {
                    let old_h = old(self).handles();
                    assert(old_h[i as int] == h);
                    assert(self.handles() =~= old_h.remove(i as int));
                    assert forall|x: u64| self.live().contains(x) <==> old(self).live().remove(
                        h,
                    ).contains(x) by {
                        if self.live().contains(x) {
                            let k = choose|k: int| 0 <= k < self.handles().len() && self.handles()[k] == x;
                            if k < i {
                                assert(old_h[k] == x);
                                assert(old_h[k] != old_h[i as int]);
                            } else {
                                assert(old_h[k + 1] == x);
                                assert(old_h[k + 1] != old_h[i as int]);
                            }
                            assert(x != h);
                        }
                        if old(self).live().remove(h).contains(x) {
                            let k = choose|k: int| 0 <= k < old_h.len() && old_h[k] == x;
                            assert(k != i);
                            if k < i {
                                assert(self.handles()[k] == x);
                            } else {
                                assert(self.handles()[k - 1] == x);
                            }
                        }
                    }
                    assert(self.live() =~= old(self).live().remove(h));
                    assert(old(self).contexts()[i as int].1.wf());
                }
                Some(c)
            },
        }
    }

    /// The handles of all registered contexts, oldest first: each live
    /// handle once, and nothing else.
    pub fn snapshot(&self) -> (r: Vec<u64>)
        requires
            self.wf(),
        ensures
            r@ == self.handles(),
            r@.no_duplicates(),
            r@.to_set() == self.live(),
    {
        let n = self.entries.len();
        let mut r: Vec<u64> = Vec::new();
        let mut i: usize = 0;
        while i < n
            invariant
                n == self.contexts().len(),
                0 <= i <= n,
                r@ == self.handles().subrange(0, i as int),
            decreases n - i,
        {
            r.push(self.entries[i].0);
            assert(r@ =~= self.handles().subrange(0, i + 1));
            i = i + 1;
        }
        assert(r@ =~= self.handles());
        r
    }

    /// Whether the query registered under `h` has been asked to stop;
    /// `None` for an unknown handle.
    pub fn interruption_requested(&self, h: u64) -> (r: Option<bool>)
        requires
            self.wf(),
        ensures
            r is None <==> !self.live().contains(h),
            r matches Some(b) ==> exists|i: int|
                0 <= i < self.contexts().len() && #[trigger] self.contexts()[i].0 == h
                    && self.contexts()[i].1.thread_info.interruption_requested == b,
    {
        match self.position(h) {
            None => None,
            Some(i) => Some(self.entries[i].1.thread_info.interruption_requested),
        }
    }

    /// One sweep: every registered context whose deadline is at or before
    /// `now` is flagged for interruption. Nothing is added or removed.
    pub fn sweep(&mut self, now: u64)
        requires
            old(self).wf(),
        ensures
            final(self).wf(),
            final(self).spec_next_handle() == old(self).spec_next_handle(),
            final(self).contexts().len() == old(self).contexts().len(),
            forall|i: int|
                0 <= i < old(self).contexts().len() ==> #[trigger] final(self).contexts()[i] == (
                old(self).contexts()[i].0,
                swept_context(old(self).contexts()[i].1, now),
            ),
    {
        let n = self.entries.len();
        let mut i: usize = 0;
        while i < n
            invariant
                n == self.contexts().len() == old(self).contexts().len(),
                0 <= i <= n,
                self.next_handle == old(self).next_handle,
                forall|j: int|
                    0 <= j < i ==> #[trigger] self.contexts()[j] == (
                        old(self).contexts()[j].0,
                        swept_context(old(self).contexts()[j].1, now),
                    ),
                forall|j: int| i <= j < n ==> #[trigger] self.contexts()[j] == old(self).contexts()[j],
            decreases n - i,
        {
            self.entries[i].1.interrupt_if_overdue(now);
            i = i + 1;
        }
        proof {
            assert(self.handles() =~= old(self).handles());
            assert forall|i: int| 0 <= i < self.contexts().len() implies #[trigger] self.contexts()[i].1.wf() by {
                assert(old(self).contexts()[i].1.wf());
            }
            assert forall|i: int| 0 <= i < self.contexts().len() implies #[trigger] self.contexts()[i].0 < self.spec_next_handle() by {
                assert(old(self).contexts()[i].0 < old(self).spec_next_handle());
            }
        }
    }
}

/// A context registered by some change and not unregistered by any later
/// one is live at the end of the run.
pub proof fn lemma_registered_stays_live(live: Set<u64>, ops: Seq<RegistryOp>, i: int, h: u64)
    requires
        0 <= i < ops.len(),
        ops[i] == RegistryOp::Register(h),
        forall|j: int| i < j < ops.len() ==> ops[j] != RegistryOp::Unregister(h),
    ensures
        apply_ops(live, ops).contains(h),
    decreases ops.len(),
{
    if i < ops.len() - 1 {
        lemma_registered_stays_live(live, ops.drop_last(), i, h);
        assert(ops.last() != RegistryOp::Unregister(h));
    }
}

/// A handle that some change unregisters and no later change registers
/// again is not live at the end of the run.
pub proof fn lemma_unregistered_stays_gone(live: Set<u64>, ops: Seq<RegistryOp>, i: int, h: u64)
    requires
        0 <= i < ops.len(),
        ops[i] == RegistryOp::Unregister(h),
        forall|j: int| i < j < ops.len() ==> ops[j] != RegistryOp::Register(h),
    ensures
        !apply_ops(live, ops).contains(h),
    decreases ops.len(),
{
    if i < ops.len() - 1 {
        lemma_unregistered_stays_gone(live, ops.drop_last(), i, h);
        assert(ops.last() != RegistryOp::Register(h));
    }
}

} // verus!
