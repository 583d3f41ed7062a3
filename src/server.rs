use vstd::prelude::*;

use crate::exceptions::LogicException;
use crate::query_contexts::{swept_context, QueryContext};
use crate::registry::{apply_op, ContextRegistry, RegistryOp};

verus! {

/// The port a server listens on unless told otherwise.
pub const DEFAULT_PORT: u16 = 8080;

/// What the timeout sweeper does after a tick.
#[derive(Debug, Clone, Copy, PartialEq, Eq, Structural)]
pub enum SweeperAction {
    /// Sleep one interval, then tick again.
    Continue,
    /// The server is shutting down: leave the loop.
    Stop,
}

/// What the accept loop does next.
#[derive(Debug, Clone, Copy, PartialEq, Eq, Structural)]
pub enum ListenerAction {
    /// Accept the next connection.
    Accept,
    /// The shutdown flag is set: release the socket and leave the loop.
    StopShutdown,
    /// The server has been torn down: leave the loop without noise.
    StopServerGone,
}

/// The flag after a shutdown request, and whether this request was the one
/// that set it.
pub open spec fn shutdown_step(flag: bool) -> (bool, bool) {
    (true, !flag)
}

/// The accept loop's decision, given `None` when the server is gone and
/// otherwise its shutdown flag.
pub open spec fn listener_decision(server: Option<bool>) -> ListenerAction {
    match server {
        None => ListenerAction::StopServerGone,
        Some(true) => ListenerAction::StopShutdown,
        Some(false) => ListenerAction::Accept,
    }
}

/// Decides one turn of the accept loop: stop when the server is gone or
/// shutting down, otherwise accept.
pub fn listener_action(server: Option<bool>) -> (r: ListenerAction)
    ensures
        r == listener_decision(server),
{
    match server {
        None => ListenerAction::StopServerGone,
        Some(true) => ListenerAction::StopShutdown,
        Some(false) => ListenerAction::Accept,
    }
}

/// The state shared by all tasks of a server: the shutdown flag and the
/// registry of live query contexts.
#[derive(Debug)]
pub struct Server {
    query_contexts: ContextRegistry,
    shutdown_server: bool,
}

impl Server {
    pub closed spec fn registry(&self) -> ContextRegistry {
        self.query_contexts
    }

    pub closed spec fn shutting_down(&self) -> bool {
        self.shutdown_server
    }

    pub open spec fn wf(&self) -> bool {
        self.registry().wf()
    }

    pub fn new() -> (r: Self)
        ensures
            r.wf(),
            !r.shutting_down(),
            r.registry().contexts() == Seq::<(u64, QueryContext)>::empty(),
    {
        Server { query_contexts: ContextRegistry::new(), shutdown_server: false }
    }

    pub fn is_shutdown(&self) -> (r: bool)
        ensures
            r == self.shutting_down(),
    {
        self.shutdown_server
    }

    /// Sets the shutdown flag. Returns whether this call set it, so that of
    /// any number of requests exactly one reports true.
    pub fn request_shutdown(&mut self) -> (r: bool)
        ensures
            (final(self).shutting_down(), r) == shutdown_step(old(self).shutting_down()),
            final(self).registry() == old(self).registry(),
    {
        let first = !self.shutdown_server;
        self.shutdown_server = true;
        first
    }

    /// One tick of the timeout sweeper at `now`: stop if the server is
    /// shutting down, otherwise flag every overdue context and continue.
    pub fn execute_timeouts(&mut self, now: u64) -> (r: SweeperAction)
        requires
            old(self).wf(),
        ensures
            final(self).wf(),
            final(self).shutting_down() == old(self).shutting_down(),
            r == (if old(self).shutting_down() {
                SweeperAction::Stop
            } else {
                SweeperAction::Continue
            }),
            old(self).shutting_down() ==> final(self).registry() == old(self).registry(),
            !old(self).shutting_down() ==> {
                &&& final(self).registry().contexts().len() == old(self).registry().contexts().len()
                &&& forall|i: int|
                    0 <= i < old(self).registry().contexts().len()
                        ==> #[trigger] final(self).registry().contexts()[i] == (
                        old(self).registry().contexts()[i].0,
                        swept_context(old(self).registry().contexts()[i].1, now),
                    )
            },
    {
        if self.shutdown_server {
            SweeperAction::Stop
        } else {
            self.query_contexts.sweep(now);
            SweeperAction::Continue
        }
    }

    /// Registers `context` for the sweeper and returns its handle. Running
    /// out of handles is a logic error.
    pub fn register_context(&mut self, context: QueryContext) -> (r: Result<u64, LogicException>)
        requires
            old(self).wf(),
            context.wf(),
        ensures
            final(self).wf(),
            final(self).shutting_down() == old(self).shutting_down(),
            r is Err <==> old(self).registry().spec_next_handle() == u64::MAX,
            r is Err ==> final(self).registry() == old(self).registry(),
            r matches Ok(h) ==> {
                &&& !old(self).registry().live().contains(h)
                &&& final(self).registry().contexts() == old(self).registry().contexts().push(
                    (h, context),
                )
                &&& final(self).registry().live() == apply_op(
                    old(self).registry().live(),
                    RegistryOp::Register(h),
                )
            },
    {
        if self.query_contexts.handles_exhausted() {
            Err(LogicException::new("no query handle left to register a context"))
        } else {
            Ok(self.query_contexts.register(context))
        }
    }

    /// Removes the context registered under `h`, if any, and hands it back.
    pub fn unregister_context(&mut self, h: u64) -> (r: Option<QueryContext>)
        requires
            old(self).wf(),
        ensures
            final(self).wf(),
            final(self).shutting_down() == old(self).shutting_down(),
            final(self).registry().live() == apply_op(
                old(self).registry().live(),
                RegistryOp::Unregister(h),
            ),
            r is None <==> !old(self).registry().live().contains(h),
            r is None ==> final(self).registry().contexts() == old(self).registry().contexts(),
            r matches Some(c) ==> c.wf() && exists|i: int|
                0 <= i < old(self).registry().contexts().len() && old(
                    self,
                ).registry().contexts()[i] == (h, c) && final(self).registry().contexts() == old(
                    self,
                ).registry().contexts().remove(i),
    {
        self.query_contexts.unregister(h)
    }

    /// Whether the query under `h` has been asked to stop; `None` for an
    /// unknown handle.
    pub fn interruption_requested(&self, h: u64) -> (r: Option<bool>)
        requires
            self.wf(),
        ensures
            r is None <==> !self.registry().live().contains(h),
            r matches Some(b) ==> exists|i: int|
                0 <= i < self.registry().contexts().len() && #[trigger] self.registry().contexts()[i].0
                    == h && self.registry().contexts()[i].1.thread_info.interruption_requested == b,
    {
        self.query_contexts.interruption_requested(h)
    }

    /// The handles of the live contexts, each once.
    pub fn live_handles(&self) -> (r: Vec<u64>)
        requires
            self.wf(),
        ensures
            r@ == self.registry().handles(),
            r@.no_duplicates(),
            r@.to_set() == self.registry().live(),
    {
        self.query_contexts.snapshot()
    }
}

/// Shutdown is idempotent: after two requests, in any interleaving, the flag
/// is set, exactly one request reports that it set the flag when it was
/// clear before (none when it was already set), and the accept loop stops for
/// shutdown.
pub proof fn lemma_shutdown_idempotent(flag: bool)
    ensures
        shutdown_step(shutdown_step(flag).0).0,
        !shutdown_step(shutdown_step(flag).0).1,
        shutdown_step(flag).1 == !flag,
        listener_decision(Some(shutdown_step(shutdown_step(flag).0).0))
            == ListenerAction::StopShutdown,
        listener_decision(Some(shutdown_step(flag).0)) == ListenerAction::StopShutdown,
{
}

} // verus!
