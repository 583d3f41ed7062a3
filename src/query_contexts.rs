use vstd::prelude::*;
use vstd::string::StringExecFns;

verus! {

/// Where `name` sits in an allocation order whose entries are distinct.
pub open spec fn position_of(names: Seq<Seq<char>>, name: Seq<char>) -> int
    recommends
        names.contains(name),
{
    choose|i: int| 0 <= i < names.len() && names[i] == name
}

/// One allocation request against a naming scope whose entries are listed in
/// allocation order (the id of an entry is its position): a name seen before
/// keeps its id, a new one is appended and gets the next id.
pub open spec fn allocate_in(names: Seq<Seq<char>>, name: Seq<char>) -> (Seq<Seq<char>>, int) {
    if names.contains(name) {
        (names, position_of(names, name))
    } else {
        (names.push(name), names.len() as int)
    }
}

proof fn lemma_position_of(names: Seq<Seq<char>>, i: int)
    requires
        names.no_duplicates(),
        0 <= i < names.len(),
    ensures
        position_of(names, names[i]) == i,
{
    assert(names.contains(names[i]));
}

/// Execution status of the query that runs on a context. Times are
/// milliseconds since the Unix epoch.
#[derive(Debug, Clone, Copy)]
pub struct ThreadInfo {
    pub interruption_requested: bool,
    pub finished: bool,
    pub worker_index: u32,
    /// The deadline: at or after this instant the query is to be interrupted.
    pub timeout: u64,
    pub time_start: u64,
}

impl ThreadInfo {
    /// A fresh status for a query starting at `now`; its deadline is `now`
    /// until the caller sets one.
    pub fn new(now: u64) -> (r: Self)
        ensures
            !r.interruption_requested,
            !r.finished,
            r.worker_index == 0,
            r.timeout == now,
            r.time_start == now,
    {
        ThreadInfo {
            interruption_requested: false,
            finished: false,
            worker_index: 0,
            timeout: now,
            time_start: now,
        }
    }
}

/// A naming scope: names are handed integer ids in allocation order, and a
/// name keeps its id until the scope is cleared.
#[derive(Debug)]
pub struct VarContext {
    internal_var_counter: u64,
    var_names: Vec<String>,
}

impl View for VarContext {
    type V = Seq<Seq<char>>;

    /// The allocated names; the id of a name is its position.
    closed spec fn view(&self) -> Seq<Seq<char>> {
        self.var_names@.map_values(|s: String| s@)
    }
}

impl VarContext {
    /// The counter matches the names handed out, and no name appears twice.
    pub closed spec fn wf(&self) -> bool {
        &&& self.internal_var_counter as int == self.var_names@.len()
        &&& self@.no_duplicates()
    }

    pub fn new() -> (r: Self)
        ensures
            r.wf(),
            r@ == Seq::<Seq<char>>::empty(),
    {
        let r = VarContext { internal_var_counter: 0, var_names: Vec::new() };
        assert(r@ =~= Seq::<Seq<char>>::empty());
        r
    }

    /// The id of `name`, if it has been allocated.
    pub fn lookup(&self, name: &str) -> (r: Option<u64>)
        requires
            self.wf(),
        ensures
            r is None <==> !self@.contains(name@),
            r matches Some(id) ==> id < self@.len() && self@[id as int] == name@,
    {
        let target = String::from_str(name);
        let n = self.var_names.len();
        let mut i: usize = 0;
        while i < n
            invariant
                n == self.var_names@.len(),
                0 <= i <= n,
                target@ == name@,
                forall|j: int| 0 <= j < i ==> self@[j] != name@,
            decreases n - i,
        {
            if self.var_names[i] == target {
                assert(self@[i as int] == name@);
                return Some(i as u64);
            }
            i = i + 1;
        }
        None
    }

    /// The id of `name`: the one it already has, or the next one.
    pub fn allocate(&mut self, name: &str) -> (r: u64)
        requires
            old(self).wf(),
        ensures
            final(self).wf(),
            (final(self)@, r as int) == allocate_in(old(self)@, name@),
            r < final(self)@.len(),
            final(self)@[r as int] == name@,
            final(self)@.no_duplicates(),
    {
        match self.lookup(name) {
            Some(id) => {
                proof {
                    lemma_position_of(self@, id as int);
                }
                id
            },
            None => {
                let id = self.internal_var_counter;
                self.var_names.push(String::from_str(name));
                self.internal_var_counter = self.var_names.len() as u64;
                assert(self@ =~= old(self)@.push(name@));
                proof {
                    assert forall|a: int, b: int|
                        0 <= a < b < self@.len() implies self@[a] != self@[b] by {
                        if b == self@.len() - 1 {
                            assert(old(self)@.contains(old(self)@[a]));
                        }
                    }
                }
                id
            },
        }
    }

    /// Forgets every name; ids start again from zero.
    pub fn clear(&mut self)
        ensures
            final(self).wf(),
            final(self)@ == Seq::<Seq<char>>::empty(),
    {
        self.var_names.clear();
        self.internal_var_counter = 0;
        assert(self@ =~= Seq::<Seq<char>>::empty());
    }
}

/// The execution state of one query: its status and deadline, and the two
/// naming scopes (variables and blank-node labels) it allocates ids from.
#[derive(Debug)]
pub struct QueryContext {
    pub thread_info: ThreadInfo,
    pub blank_node_ids: VarContext,
    pub var_ctx: VarContext,
}

/// `c` after a sweep at `now`: flagged for interruption when its deadline has
/// been reached, otherwise unchanged.
pub open spec fn swept_context(c: QueryContext, now: u64) -> QueryContext {
    if c.thread_info.timeout <= now {
        QueryContext {
            thread_info: ThreadInfo { interruption_requested: true, ..c.thread_info },
            ..c
        }
    } else {
        c
    }
}

impl QueryContext {
    pub open spec fn wf(&self) -> bool {
        &&& self.var_ctx.wf()
        &&& self.blank_node_ids.wf()
    }

    /// A context for a query starting at `now`, with empty scopes.
    pub fn new(now: u64) -> (r: Self)
        ensures
            r.wf(),
            r.thread_info.worker_index == 0,
            !r.thread_info.finished,
            !r.thread_info.interruption_requested,
            r.thread_info.timeout == now,
            r.thread_info.time_start == now,
            r.var_ctx@ == Seq::<Seq<char>>::empty(),
            r.blank_node_ids@ == Seq::<Seq<char>>::empty(),
    {
        QueryContext {
            thread_info: ThreadInfo::new(now),
            blank_node_ids: VarContext::new(),
            var_ctx: VarContext::new(),
        }
    }

    /// Prepares the context for another query: both scopes are emptied and
    /// the interruption and finished flags cleared; the worker index, start
    /// time and deadline are kept.
    pub fn reset(&mut self)
        ensures
            final(self).wf(),
            final(self).var_ctx@ == Seq::<Seq<char>>::empty(),
            final(self).blank_node_ids@ == Seq::<Seq<char>>::empty(),
            final(self).thread_info == (ThreadInfo {
                interruption_requested: false,
                finished: false,
                ..old(self).thread_info
            }),
    {
        self.blank_node_ids.clear();
        self.var_ctx.clear();
        self.thread_info.interruption_requested = false;
        self.thread_info.finished = false;
    }

    /// The id of variable `name` in this query: the same id for the same
    /// name, the next id for a new one.
    pub fn allocate_variable(&mut self, name: &str) -> (r: u64)
        requires
            old(self).wf(),
        ensures
            final(self).wf(),
            (final(self).var_ctx@, r as int) == allocate_in(old(self).var_ctx@, name@),
            r < final(self).var_ctx@.len(),
            final(self).var_ctx@[r as int] == name@,
            final(self).var_ctx@.no_duplicates(),
            final(self).blank_node_ids == old(self).blank_node_ids,
            final(self).thread_info == old(self).thread_info,
    {
        self.var_ctx.allocate(name)
    }

    /// The id of blank node `label` in this query, allocated as variables are.
    pub fn allocate_blank_node(&mut self, label: &str) -> (r: u64)
        requires
            old(self).wf(),
        ensures
            final(self).wf(),
            (final(self).blank_node_ids@, r as int) == allocate_in(old(self).blank_node_ids@, label@),
            r < final(self).blank_node_ids@.len(),
            final(self).blank_node_ids@[r as int] == label@,
            final(self).blank_node_ids@.no_duplicates(),
            final(self).var_ctx == old(self).var_ctx,
            final(self).thread_info == old(self).thread_info,
    {
        self.blank_node_ids.allocate(label)
    }

    /// The id already given to variable `name`, if any.
    pub fn lookup_variable(&self, name: &str) -> (r: Option<u64>)
        requires
            self.wf(),
        ensures
            r is None <==> !self.var_ctx@.contains(name@),
            r matches Some(id) ==> id < self.var_ctx@.len() && self.var_ctx@[id as int] == name@,
    {
        self.var_ctx.lookup(name)
    }

    /// The id already given to blank node `label`, if any.
    pub fn lookup_blank_node(&self, label: &str) -> (r: Option<u64>)
        requires
            self.wf(),
        ensures
            r is None <==> !self.blank_node_ids@.contains(label@),
            r matches Some(id) ==> id < self.blank_node_ids@.len()
                && self.blank_node_ids@[id as int] == label@,
    {
        self.blank_node_ids.lookup(label)
    }

    /// Sets the deadline to the start time plus `timeout_ms`, saturating at
    /// the largest instant.
    pub fn set_timeout(&mut self, timeout_ms: u64)
        ensures
            final(self).thread_info.timeout as int == if old(self).thread_info.time_start
                + timeout_ms > u64::MAX {
                u64::MAX as int
            } else {
                old(self).thread_info.time_start + timeout_ms
            },
            final(self).thread_info == (ThreadInfo {
                timeout: final(self).thread_info.timeout,
                ..old(self).thread_info
            }),
            final(self).var_ctx == old(self).var_ctx,
            final(self).blank_node_ids == old(self).blank_node_ids,
    {
        self.thread_info.timeout = self.thread_info.time_start.saturating_add(timeout_ms);
    }

    /// Whether the deadline has been reached at `now`.
    pub fn is_overdue(&self, now: u64) -> (r: bool)
        ensures
            r == (self.thread_info.timeout <= now),
    {
        self.thread_info.timeout <= now
    }

    /// Flags the query for interruption if its deadline has been reached.
    pub fn interrupt_if_overdue(&mut self, now: u64)
        ensures
            *final(self) == swept_context(*old(self), now),
    {
        if self.thread_info.timeout <= now {
            self.thread_info.interruption_requested = true;
        }
    }
}

/// A context after one sweep at each of `ticks`, in order.
pub open spec fn swept_over(c: QueryContext, ticks: Seq<u64>) -> QueryContext
    decreases ticks.len(),
{
    if ticks.len() == 0 {
        c
    } else {
        swept_context(swept_over(c, ticks.drop_last()), ticks.last())
    }
}

/// A sweep flags a context whose deadline has been reached, never clears the
/// flag, and changes nothing else.
pub proof fn lemma_sweep_flags_overdue(c: QueryContext, now: u64)
    ensures
        c.thread_info.timeout <= now ==> swept_context(c, now).thread_info.interruption_requested,
        c.thread_info.interruption_requested ==> swept_context(c, now).thread_info.interruption_requested,
        swept_context(c, now).thread_info.timeout == c.thread_info.timeout,
        swept_context(c, now).var_ctx == c.var_ctx,
        swept_context(c, now).blank_node_ids == c.blank_node_ids,
{
}

/// Once flagged, a context stays flagged through any number of sweeps.
pub proof fn lemma_flag_survives_sweeps(c: QueryContext, ticks: Seq<u64>)
    requires
        c.thread_info.interruption_requested,
    ensures
        swept_over(c, ticks).thread_info.interruption_requested,
    decreases ticks.len(),
{
    if ticks.len() > 0 {
        lemma_flag_survives_sweeps(c, ticks.drop_last());
    }
}

/// Ids are stable: allocating a name a second time gives the id of the first
/// allocation and leaves the scope as it was.
pub proof fn lemma_allocation_repeats(names: Seq<Seq<char>>, name: Seq<char>)
    requires
        names.no_duplicates(),
    ensures
        allocate_in(allocate_in(names, name).0, name) == allocate_in(names, name),
{
    let after = allocate_in(names, name).0;
    if !names.contains(name) {
        assert(after[names.len() as int] == name);
        assert(after.contains(name));
        assert(after.no_duplicates()) by {
            assert forall|a: int, b: int|
                0 <= a < b < after.len() implies after[a] != after[b] by {
                if b == names.len() {
                    assert(names.contains(names[a]));
                }
            }
        }
        lemma_position_of(after, names.len() as int);
    }
}

/// Ids are distinct and increasing: a name allocated after another, different
/// and new one gets a strictly larger id, and every id ever given out is
/// below the id of a new name.
pub proof fn lemma_allocation_increases(names: Seq<Seq<char>>, first: Seq<char>, second: Seq<char>)
    requires
        names.no_duplicates(),
        first != second,
        !names.contains(second),
    ensures
        allocate_in(allocate_in(names, first).0, second).1 > allocate_in(names, first).1,
        allocate_in(allocate_in(names, first).0, second).0 == allocate_in(names, first).0.push(second),
{
    let (after, id) = allocate_in(names, first);
    if names.contains(first) {
        assert(0 <= id < names.len());
    } else {
        assert(!after.contains(second)) by {
            if after.contains(second) {
                let k = choose|k: int| 0 <= k < after.len() && after[k] == second;
                if k < names.len() {
                    assert(names[k] == second);
                }
            }
        }
    }
}

/// Different names in one scope hold different ids.
pub proof fn lemma_distinct_names_distinct_ids(names: Seq<Seq<char>>, a: Seq<char>, b: Seq<char>)
    requires
        names.no_duplicates(),
        names.contains(a),
        names.contains(b),
        a != b,
    ensures
        position_of(names, a) != position_of(names, b),
{
}

/// After a reset the scope restarts: the first name allocated gets id zero,
/// and no name counts as allocated.
pub proof fn lemma_reset_restarts(name: Seq<char>)
    ensures
        allocate_in(Seq::<Seq<char>>::empty(), name) == (seq![name], 0int),
        !Seq::<Seq<char>>::empty().contains(name),
{
    assert(Seq::<Seq<char>>::empty().push(name) =~= seq![name]);
}

} // verus!
