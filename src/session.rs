use vstd::prelude::*;
use vstd::string::StringExecFns;

use crate::exceptions::{
    InterruptedException, LogicException, NotSupportedException, QueryException,
    QueryExecutionException, QuerySemanticException,
};
use crate::query_contexts::QueryContext;
use crate::registry::{apply_op, RegistryOp};
use crate::server::Server;

verus! {

/// Where a connection stands. `Closed` is final.
#[derive(Debug, Clone, Copy, PartialEq, Eq, Structural)]
pub enum SessionState {
    Idle,
    Reading,
    Dispatching,
    Writing,
    Closed,
}

/// What happened on the connection since the last step.
#[derive(Debug, Clone, Copy, PartialEq, Eq, Structural)]
pub enum SessionEvent {
    /// The connection was accepted and the session started.
    Start,
    /// A complete request arrived.
    RequestReceived,
    /// No byte arrived within the idle timeout.
    ReadTimedOut,
    /// The client closed its side.
    PeerClosed,
    /// A read or a write failed.
    TransportFailed,
    /// The query pipeline returned, with a result or an error.
    QueryDone,
    /// The response was written in full.
    ResponseWritten,
}

/// What the connection task is to do next.
#[derive(Debug, Clone, Copy, PartialEq, Eq, Structural)]
pub enum SessionAction {
    /// Wait for the next request, under the idle timeout.
    Read,
    /// Hand the request to the query pipeline.
    Dispatch,
    /// Write the response.
    Write,
    /// Release the socket without writing anything more.
    Close,
    /// Nothing: the session is over.
    Nothing,
}

/// The per-connection state machine. A request is read, dispatched and
/// answered before the next one is read; an idle timeout, a closed peer or a
/// transport error closes the session; an event that cannot occur in the
/// current state is a logic error and closes this session only.
pub open spec fn session_transition(state: SessionState, event: SessionEvent) -> (
    SessionState,
    SessionAction,
) {
    match (state, event) {
        (SessionState::Closed, _) => (SessionState::Closed, SessionAction::Nothing),
        (_, SessionEvent::TransportFailed) => (SessionState::Closed, SessionAction::Close),
        (SessionState::Idle, SessionEvent::Start) => (SessionState::Reading, SessionAction::Read),
        (SessionState::Reading, SessionEvent::RequestReceived) => (
            SessionState::Dispatching,
            SessionAction::Dispatch,
        ),
        (SessionState::Reading, SessionEvent::ReadTimedOut) => (
            SessionState::Closed,
            SessionAction::Close,
        ),
        (SessionState::Reading, SessionEvent::PeerClosed) => (
            SessionState::Closed,
            SessionAction::Close,
        ),
        (SessionState::Dispatching, SessionEvent::QueryDone) => (
            SessionState::Writing,
            SessionAction::Write,
        ),
        (SessionState::Writing, SessionEvent::ResponseWritten) => (
            SessionState::Reading,
            SessionAction::Read,
        ),
        _ => (SessionState::Closed, SessionAction::Close),
    }
}

/// Requests are answered strictly in turn: once a request is dispatched,
/// the next read comes only after its response has been written, and no
/// event other than a written response leads from there to a read.
pub proof fn lemma_no_read_before_response(state: SessionState, event: SessionEvent)
    requires
        state == SessionState::Dispatching || state == SessionState::Writing,
    ensures
        session_transition(state, event).1 == SessionAction::Read <==> (state
            == SessionState::Writing && event == SessionEvent::ResponseWritten),
{
}

/// An idle timeout while waiting for a request closes the session without a
/// response, and a closed session does nothing more, whatever happens next.
pub proof fn lemma_idle_timeout_closes(event: SessionEvent)
    ensures
        session_transition(SessionState::Reading, SessionEvent::ReadTimedOut) == (
            SessionState::Closed,
            SessionAction::Close,
        ),
        session_transition(SessionState::Closed, event) == (
            SessionState::Closed,
            SessionAction::Nothing,
        ),
{
}

/// Why the query pipeline rejected or failed a query.
#[derive(Debug)]
pub enum QueryFailure {
    Parsing(QueryException),
    Semantic(QuerySemanticException),
    Execution(QueryExecutionException),
    NotSupported(NotSupportedException),
}

/// What the query pipeline returned for one request.
#[derive(Debug)]
pub enum QueryOutcome {
    /// The serialized result.
    Success(String),
    /// The query ran past its deadline and stopped at a check point.
    Interrupted,
    Failed(QueryFailure),
}

/// The text sent back for an outcome: the result itself; an interruption,
/// marked apart so that the client may resubmit; or an error with its message.
pub open spec fn outcome_response(outcome: &QueryOutcome) -> Seq<char> {
    match outcome {
        QueryOutcome::Success(s) => s@,
        QueryOutcome::Interrupted => "INTERRUPTED: "@ + "Interruption request received."@,
        QueryOutcome::Failed(QueryFailure::Parsing(e)) => "ERROR: "@ + e@,
        QueryOutcome::Failed(QueryFailure::Semantic(e)) => "ERROR: "@ + e@,
        QueryOutcome::Failed(QueryFailure::Execution(e)) => "ERROR: "@ + e@,
        QueryOutcome::Failed(QueryFailure::NotSupported(e)) => "ERROR: "@ + e@,
    }
}

/// The response for `outcome`.
pub fn response_for(outcome: &QueryOutcome) -> (r: String)
    ensures
        r@ == outcome_response(outcome),
{
    match outcome {
        QueryOutcome::Success(s) => s.clone(),
        QueryOutcome::Interrupted => {
            let text = InterruptedException.to_string();
            String::from_str("INTERRUPTED: ").concat(text.as_str())
        },
        QueryOutcome::Failed(f) => {
            let text = match f {
                QueryFailure::Parsing(e) => e.to_string(),
                QueryFailure::Semantic(e) => e.to_string(),
                QueryFailure::Execution(e) => e.to_string(),
                QueryFailure::NotSupported(e) => e.to_string(),
            };
            String::from_str("ERROR: ").concat(text.as_str())
        },
    }
}

/// One client connection: its state, its idle timeout and the time each of
/// its queries may run (both in milliseconds).
#[derive(Debug)]
pub struct Session {
    state: SessionState,
    timeout: u64,
    request_timeout: u64,
}

impl Session {
    pub closed spec fn spec_state(&self) -> SessionState {
        self.state
    }

    pub closed spec fn spec_timeout(&self) -> u64 {
        self.timeout
    }

    pub closed spec fn spec_request_timeout(&self) -> u64 {
        self.request_timeout
    }

    pub fn new(timeout: u64, request_timeout: u64) -> (r: Self)
        ensures
            r.spec_state() == SessionState::Idle,
            r.spec_timeout() == timeout,
            r.spec_request_timeout() == request_timeout,
    {
        Session { state: SessionState::Idle, timeout, request_timeout }
    }

    pub fn state(&self) -> (r: SessionState)
        ensures
            r == self.spec_state(),
    {
        self.state
    }

    /// The idle timeout: how long to wait for the next byte.
    pub fn timeout(&self) -> (r: u64)
        ensures
            r == self.spec_timeout(),
    {
        self.timeout
    }

    /// Advances the state machine by one event and says what to do next.
    pub fn step(&mut self, event: SessionEvent) -> (r: SessionAction)
        ensures
            (final(self).spec_state(), r) == session_transition(old(self).spec_state(), event),
            final(self).spec_timeout() == old(self).spec_timeout(),
            final(self).spec_request_timeout() == old(self).spec_request_timeout(),
    {
        let (next, action) = match (self.state, event) {
            (SessionState::Closed, _) => (SessionState::Closed, SessionAction::Nothing),
            (_, SessionEvent::TransportFailed) => (SessionState::Closed, SessionAction::Close),
            (SessionState::Idle, SessionEvent::Start) => (SessionState::Reading, SessionAction::Read),
            (SessionState::Reading, SessionEvent::RequestReceived) => (
                SessionState::Dispatching,
                SessionAction::Dispatch,
            ),
            (SessionState::Reading, SessionEvent::ReadTimedOut) => (
                SessionState::Closed,
                SessionAction::Close,
            ),
            (SessionState::Reading, SessionEvent::PeerClosed) => (
                SessionState::Closed,
                SessionAction::Close,
            ),
            (SessionState::Dispatching, SessionEvent::QueryDone) => (
                SessionState::Writing,
                SessionAction::Write,
            ),
            (SessionState::Writing, SessionEvent::ResponseWritten) => (
                SessionState::Reading,
                SessionAction::Read,
            ),
            _ => (SessionState::Closed, SessionAction::Close),
        };
        self.state = next;
        action
    }

    /// Starts a query at `now`: a fresh context whose deadline is `now` plus
    /// the request timeout (saturating) is registered with the server, and
    /// its handle returned.
    pub fn begin_query(&self, server: &mut Server, now: u64) -> (r: Result<u64, LogicException>)
        requires
            old(server).wf(),
        ensures
            final(server).wf(),
            final(server).shutting_down() == old(server).shutting_down(),
            r is Err <==> old(server).registry().spec_next_handle() == u64::MAX,
            r is Err ==> final(server).registry() == old(server).registry(),
            r matches Ok(h) ==> {
                let c = final(server).registry().contexts().last();
                &&& !old(server).registry().live().contains(h)
                &&& final(server).registry().contexts().drop_last() == old(
                    server,
                ).registry().contexts()
                &&& final(server).registry().contexts().len() == old(
                    server,
                ).registry().contexts().len() + 1
                &&& final(server).registry().live() == apply_op(
                    old(server).registry().live(),
                    RegistryOp::Register(h),
                )
                &&& c.0 == h
                &&& c.1.wf()
                &&& !c.1.thread_info.interruption_requested
                &&& c.1.thread_info.time_start == now
                &&& c.1.thread_info.timeout as int == if now + self.spec_request_timeout()
                    > u64::MAX {
                    u64::MAX as int
                } else {
                    now + self.spec_request_timeout()
                }
                &&& c.1.var_ctx@ == Seq::<Seq<char>>::empty()
                &&& c.1.blank_node_ids@ == Seq::<Seq<char>>::empty()
            },
    {
        let mut context = QueryContext::new(now);
        context.set_timeout(self.request_timeout);
        let r = server.register_context(context);
        proof {
            if r is Ok {
                assert(final(server).registry().contexts().drop_last() =~= old(
                    server,
                ).registry().contexts());
            }
        }
        r
    }

    /// Ends the query registered under `h`: its context is unregistered and
    /// the response for `outcome` returned.
    pub fn finish_query(&self, server: &mut Server, h: u64, outcome: &QueryOutcome) -> (r: String)
        requires
            old(server).wf(),
        ensures
            final(server).wf(),
            final(server).shutting_down() == old(server).shutting_down(),
            final(server).registry().live() == apply_op(
                old(server).registry().live(),
                RegistryOp::Unregister(h),
            ),
            r@ == outcome_response(outcome),
    {
        let _ = server.unregister_context(h);
        response_for(outcome)
    }
}

} // verus!
