use milleniumdb_rs::config::{parse_positive_number, validate_db_folder, NumberError};
use milleniumdb_rs::exceptions::{
    ConnectionException, InterruptedException, LogicException, NotSupportedException,
    QueryException, QueryExecutionException, QuerySemanticException,
};
use milleniumdb_rs::query_contexts::{QueryContext, ThreadInfo, VarContext};
use milleniumdb_rs::query_services::{is_whitespace, query_response, trimmed};
use milleniumdb_rs::registry::ContextRegistry;
use milleniumdb_rs::response_type::ResponseType;
use milleniumdb_rs::server::{listener_action, ListenerAction, Server, SweeperAction, DEFAULT_PORT};
use milleniumdb_rs::session::{
    response_for, QueryFailure, QueryOutcome, Session, SessionAction, SessionEvent, SessionState,
};

#[test]
fn exception_messages() {
    assert_eq!(InterruptedException.to_string(), "Interruption request received.");
    assert_eq!(QueryException::new("bad token").to_string(), "bad token");
    assert_eq!(
        QuerySemanticException::new("x unbound").to_string(),
        "Bad query semantic: `x unbound`."
    );
    assert_eq!(
        QueryExecutionException::new("out of buffers").to_string(),
        "Error in query execution: `out of buffers`."
    );
    assert_eq!(LogicException::new("broken").to_string(), "Logic Error: `broken`.");
    assert_eq!(
        NotSupportedException::new("DESCRIBE").to_string(),
        "Operation `DESCRIBE` not supported yet."
    );
    assert_eq!(ConnectionException::new("reset by peer").to_string(), "reset by peer");
}

#[test]
fn response_type_names_round_trip() {
    let all = [
        ResponseType::JSON,
        ResponseType::XML,
        ResponseType::TSV,
        ResponseType::CSV,
        ResponseType::TURTLE,
    ];
    for t in all {
        let name = ResponseType::response_type_to_string(t);
        assert_eq!(ResponseType::from_str(name).unwrap(), t);
    }
    assert_eq!(ResponseType::response_type_to_string(ResponseType::TURTLE), "TURTLE");
}

#[test]
fn response_type_rejects_unknown_format() {
    let e = ResponseType::from_str("json").unwrap_err();
    assert_eq!(
        e.to_string(),
        "Logic Error: `Unmanaged ResposeType in response_type_to_string`."
    );
    assert!(ResponseType::from_str("").is_err());
}

#[test]
fn thread_info_starts_clear() {
    let t = ThreadInfo::new(1000);
    assert!(!t.interruption_requested);
    assert!(!t.finished);
    assert_eq!(t.worker_index, 0);
    assert_eq!(t.timeout, 1000);
    assert_eq!(t.time_start, 1000);
}

#[test]
fn same_variable_gets_same_id() {
    let mut c = QueryContext::new(0);
    let x = c.allocate_variable("?x");
    let y = c.allocate_variable("?y");
    let z = c.allocate_variable("?z");
    assert_eq!((x, y, z), (0, 1, 2));
    assert_eq!(c.allocate_variable("?y"), y);
    assert_eq!(c.allocate_variable("?x"), x);
    assert_eq!(c.allocate_variable("?w"), 3);
    assert_eq!(c.lookup_variable("?z"), Some(2));
    assert_eq!(c.lookup_variable("?nope"), None);
}

#[test]
fn blank_nodes_have_their_own_scope() {
    let mut c = QueryContext::new(0);
    assert_eq!(c.allocate_variable("a"), 0);
    assert_eq!(c.allocate_blank_node("b0"), 0);
    assert_eq!(c.allocate_blank_node("b1"), 1);
    assert_eq!(c.allocate_blank_node("b0"), 0);
    assert_eq!(c.lookup_blank_node("a"), None);
    assert_eq!(c.lookup_variable("b0"), None);
}

#[test]
fn var_context_allocates_in_order() {
    let mut v = VarContext::new();
    assert_eq!(v.lookup(""), None);
    assert_eq!(v.allocate(""), 0);
    assert_eq!(v.allocate("é"), 1);
    assert_eq!(v.allocate(""), 0);
    v.clear();
    assert_eq!(v.lookup("é"), None);
    assert_eq!(v.allocate("é"), 0);
}

#[test]
fn reset_restarts_counters() {
    let mut c = QueryContext::new(10);
    c.thread_info.worker_index = 3;
    c.set_timeout(50);
    c.allocate_variable("?a");
    c.allocate_variable("?b");
    c.allocate_blank_node("_:n");
    c.thread_info.interruption_requested = true;
    c.reset();
    assert_eq!(c.lookup_variable("?a"), None);
    assert_eq!(c.lookup_variable("?b"), None);
    assert_eq!(c.lookup_blank_node("_:n"), None);
    assert_eq!(c.allocate_variable("?b"), 0);
    assert_eq!(c.allocate_blank_node("_:m"), 0);
    assert!(!c.thread_info.interruption_requested);
    assert_eq!(c.thread_info.worker_index, 3);
    assert_eq!(c.thread_info.timeout, 60);
}

#[test]
fn deadline_saturates() {
    let mut c = QueryContext::new(u64::MAX - 5);
    c.set_timeout(100);
    assert_eq!(c.thread_info.timeout, u64::MAX);
    let mut d = QueryContext::new(200);
    d.set_timeout(500);
    assert_eq!(d.thread_info.timeout, 700);
    assert!(!d.is_overdue(699));
    assert!(d.is_overdue(700));
}

#[test]
fn registry_reports_each_live_context_once() {
    let mut r = ContextRegistry::new();
    let a = r.register(QueryContext::new(0));
    let b = r.register(QueryContext::new(0));
    let c = r.register(QueryContext::new(0));
    assert_eq!(r.snapshot(), vec![a, b, c]);
    assert!(r.unregister(b).is_some());
    assert!(r.unregister(b).is_none());
    assert!(r.unregister(999).is_none());
    let d = r.register(QueryContext::new(0));
    assert!(d != b);
    assert_eq!(r.snapshot(), vec![a, c, d]);
    assert_eq!(r.len(), 3);
    assert!(!r.handles_exhausted());
}

#[test]
fn sweep_flags_only_overdue_contexts() {
    let mut r = ContextRegistry::new();
    let mut early = QueryContext::new(0);
    early.set_timeout(100);
    let mut late = QueryContext::new(0);
    late.set_timeout(5000);
    let e = r.register(early);
    let l = r.register(late);
    r.sweep(99);
    assert_eq!(r.interruption_requested(e), Some(false));
    r.sweep(100);
    assert_eq!(r.interruption_requested(e), Some(true));
    assert_eq!(r.interruption_requested(l), Some(false));
    r.sweep(0);
    assert_eq!(r.interruption_requested(e), Some(true));
    assert_eq!(r.interruption_requested(99), None);
    let back = r.unregister(e).unwrap();
    assert!(back.thread_info.interruption_requested);
}

#[test]
fn shutdown_is_set_once() {
    let mut s = Server::new();
    assert!(!s.is_shutdown());
    assert!(s.request_shutdown());
    assert!(!s.request_shutdown());
    assert!(s.is_shutdown());
    assert_eq!(listener_action(Some(s.is_shutdown())), ListenerAction::StopShutdown);
    assert_eq!(DEFAULT_PORT, 8080);
}

#[test]
fn listener_decisions() {
    assert_eq!(listener_action(Some(false)), ListenerAction::Accept);
    assert_eq!(listener_action(Some(true)), ListenerAction::StopShutdown);
    assert_eq!(listener_action(None), ListenerAction::StopServerGone);
}

#[test]
fn sweeper_stops_on_shutdown() {
    let mut s = Server::new();
    let session = Session::new(60_000, 10);
    let h = session.begin_query(&mut s, 0).unwrap();
    assert_eq!(s.execute_timeouts(10), SweeperAction::Continue);
    assert_eq!(s.interruption_requested(h), Some(true));
    s.request_shutdown();
    assert_eq!(s.execute_timeouts(20), SweeperAction::Stop);
    assert_eq!(s.live_handles(), vec![h]);
}

#[test]
fn session_state_machine() {
    let mut s = Session::new(50, 500);
    assert_eq!(s.state(), SessionState::Idle);
    assert_eq!(s.timeout(), 50);
    assert_eq!(s.step(SessionEvent::Start), SessionAction::Read);
    assert_eq!(s.step(SessionEvent::RequestReceived), SessionAction::Dispatch);
    assert_eq!(s.step(SessionEvent::QueryDone), SessionAction::Write);
    assert_eq!(s.step(SessionEvent::ResponseWritten), SessionAction::Read);
    assert_eq!(s.state(), SessionState::Reading);
    assert_eq!(s.step(SessionEvent::PeerClosed), SessionAction::Close);
    assert_eq!(s.state(), SessionState::Closed);
    assert_eq!(s.step(SessionEvent::Start), SessionAction::Nothing);
}

#[test]
fn session_closes_on_transport_error_and_out_of_order_events() {
    let mut s = Session::new(50, 500);
    s.step(SessionEvent::Start);
    s.step(SessionEvent::RequestReceived);
    assert_eq!(s.step(SessionEvent::TransportFailed), SessionAction::Close);
    let mut t = Session::new(50, 500);
    assert_eq!(t.step(SessionEvent::QueryDone), SessionAction::Close);
    assert_eq!(t.state(), SessionState::Closed);
}

#[test]
fn idle_session_closes_without_response() {
    // A client that sends nothing for longer than the idle timeout.
    let mut s = Session::new(50, 500);
    assert_eq!(s.step(SessionEvent::Start), SessionAction::Read);
    assert_eq!(s.step(SessionEvent::ReadTimedOut), SessionAction::Close);
    assert_eq!(s.state(), SessionState::Closed);
    assert_eq!(s.step(SessionEvent::ResponseWritten), SessionAction::Nothing);
}

#[test]
fn overdue_query_is_answered_as_interrupted() {
    // Deadline of 500 ms; the sweeper ticks and the pipeline polls every 100 ms.
    let mut server = Server::new();
    let mut session = Session::new(60_000, 500);
    session.step(SessionEvent::Start);
    assert_eq!(session.step(SessionEvent::RequestReceived), SessionAction::Dispatch);
    let h = session.begin_query(&mut server, 0).unwrap();
    let mut stopped_at = None;
    let mut now = 0;
    while now <= 2000 {
        server.execute_timeouts(now);
        if server.interruption_requested(h) == Some(true) {
            stopped_at = Some(now);
            break;
        }
        now += 100;
    }
    let stopped_at = stopped_at.unwrap();
    assert!(stopped_at >= 500 && stopped_at <= 600);
    let response = session.finish_query(&mut server, h, &QueryOutcome::Interrupted);
    assert_eq!(response, "INTERRUPTED: Interruption request received.");
    assert_eq!(server.interruption_requested(h), None);
    assert_eq!(session.step(SessionEvent::QueryDone), SessionAction::Write);
}

#[test]
fn shutdown_lets_accepted_session_finish() {
    let mut server = Server::new();
    let mut session = Session::new(60_000, 30_000);
    session.step(SessionEvent::Start);
    session.step(SessionEvent::RequestReceived);
    let h = session.begin_query(&mut server, 0).unwrap();
    assert!(server.request_shutdown());
    assert_eq!(listener_action(Some(server.is_shutdown())), ListenerAction::StopShutdown);
    let out = QueryOutcome::Success(String::from("ok"));
    assert_eq!(session.finish_query(&mut server, h, &out), "ok");
    assert_eq!(session.step(SessionEvent::QueryDone), SessionAction::Write);
    assert_eq!(session.step(SessionEvent::ResponseWritten), SessionAction::Read);
    assert!(server.live_handles().is_empty());
}

#[test]
fn failure_responses_carry_messages() {
    let f = QueryOutcome::Failed(QueryFailure::Parsing(QueryException::new("unexpected EOF")));
    assert_eq!(response_for(&f), "ERROR: unexpected EOF");
    let g = QueryOutcome::Failed(QueryFailure::NotSupported(NotSupportedException::new("PATH")));
    assert_eq!(response_for(&g), "ERROR: Operation `PATH` not supported yet.");
    let h = QueryOutcome::Failed(QueryFailure::Semantic(QuerySemanticException::new("v")));
    assert_eq!(response_for(&h), "ERROR: Bad query semantic: `v`.");
    let i = QueryOutcome::Failed(QueryFailure::Execution(QueryExecutionException::new("e")));
    assert_eq!(response_for(&i), "ERROR: Error in query execution: `e`.");
}

#[test]
fn graph_service_acknowledges_expected_query() {
    assert_eq!(query_response("EXPECTED_QUERY"), "Query received and processed.");
    assert_eq!(query_response("  EXPECTED_QUERY\r\n"), "Query received and processed.");
    assert_eq!(query_response("\u{a0}EXPECTED_QUERY\u{3000}"), "Query received and processed.");
    assert_eq!(query_response("EXPECTED QUERY"), "Syntax Error: Invalid query format.");
    assert_eq!(query_response(""), "Syntax Error: Invalid query format.");
}

#[test]
fn trimming_matches_std() {
    for s in ["", "   ", " a b ", "\tx\n", "\u{2003}y\u{85}", "z"] {
        assert_eq!(trimmed(s), s.trim());
    }
    for c in ['\u{0}', ' ', 'a', '\u{b}', '\u{1680}', '\u{200b}', '\u{3000}', '\u{feff}'] {
        assert_eq!(is_whitespace(c), c.is_whitespace());
    }
}

#[test]
fn positive_numbers_parse() {
    assert_eq!(parse_positive_number("8080", 65535), Ok(8080));
    assert_eq!(parse_positive_number("+4", 255), Ok(4));
    assert_eq!(parse_positive_number("255", 255), Ok(255));
    assert_eq!(parse_positive_number("18446744073709551615", u64::MAX), Ok(u64::MAX));
}

#[test]
fn bad_numbers_are_refused() {
    assert_eq!(parse_positive_number("", 255), Err(NumberError::Empty));
    assert_eq!(parse_positive_number("+", 255), Err(NumberError::InvalidDigit));
    assert_eq!(parse_positive_number("-3", 255), Err(NumberError::InvalidDigit));
    assert_eq!(parse_positive_number("12a", 255), Err(NumberError::InvalidDigit));
    assert_eq!(parse_positive_number("256", 255), Err(NumberError::TooLarge));
    assert_eq!(parse_positive_number("18446744073709551616", u64::MAX), Err(NumberError::TooLarge));
    assert_eq!(parse_positive_number("0", 255), Err(NumberError::NotPositive));
    assert_eq!(parse_positive_number("000", 255), Err(NumberError::NotPositive));
    assert_eq!(NumberError::NotPositive.message(), "Must be a positive number");
    assert_eq!(NumberError::TooLarge.message(), "number too large to fit in target type");
}

#[test]
fn number_errors_agree_with_std() {
    for s in ["", "+", "-", "-1", "1x", "999", "x999", "+0"] {
        let ours = parse_positive_number(s, u8::MAX as u64);
        match s.parse::<u8>() {
            Ok(v) if v > 0 => assert_eq!(ours, Ok(v as u64)),
            Ok(_) => assert_eq!(ours, Err(NumberError::NotPositive)),
            Err(e) => assert_eq!(ours.unwrap_err().message(), e.to_string()),
        }
    }
}

#[test]
fn db_folder_checks() {
    assert_eq!(validate_db_folder(true, true), Ok(()));
    assert_eq!(
        validate_db_folder(false, false),
        Err(String::from("Database folder does not exist"))
    );
    assert_eq!(
        validate_db_folder(true, false),
        Err(String::from("Database folder is not a directory"))
    );
}
