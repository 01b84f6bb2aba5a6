use gateserver::bridge::{exchange_outcome, tcp_read, Action, Event, Exchange, Phase, Session, READ_BUFFER_SIZE};
use gateserver::connect::{ConnectPolicy, ConnectStep, ATTEMPT_WINDOW_MS, CONNECT_ATTEMPTS};
use gateserver::diagnostics::debug_print_bytes;
use gateserver::response::Failure;

fn finish(a: Action) -> (Result<gateserver::response::ProxyResult, Failure>, bool) {
    match a {
        Action::Finish { result, keep_connection } => (result, keep_connection),
        _ => panic!("expected the request to end"),
    }
}

#[test]
fn tcp_echo_round_trip() {
    let payload = b"{\"cmd\":1}".to_vec();
    let (mut s, first) = Session::start(Some(1000), true, payload.clone());
    assert!(matches!(first, Action::Send));
    assert_eq!(s.payload, payload);
    let mut buffer = vec![0u8; READ_BUFFER_SIZE];
    buffer[..payload.len()].copy_from_slice(&payload);
    let reply = exchange_outcome(tcp_read(buffer, payload.len()));
    let (result, keep) = finish(s.step(Event::Replied(reply)));
    let r = result.unwrap();
    assert!(keep);
    assert_eq!(r.status, 200);
    assert_eq!(r.body, payload);
    assert_eq!(r.headers[0].name, "content-type");
    assert_eq!(r.headers[0].value, b"application/json".to_vec());
}

#[test]
fn websocket_echo_round_trip() {
    let payload = vec![0u8, 255, 10];
    let (mut s, _) = Session::start(Some(10), true, payload.clone());
    let reply = exchange_outcome(Exchange::WsBinary(payload.clone()));
    let (result, _) = finish(s.step(Event::Replied(reply)));
    assert_eq!(result.unwrap().body, payload);
}

#[test]
fn websocket_text_reply_is_passed_verbatim() {
    let r = exchange_outcome(Exchange::WsText("héllo".to_string())).unwrap();
    assert_eq!(r.body, "héllo".as_bytes().to_vec());
    assert_eq!(r.status, 200);
}

#[test]
fn timeout_answers_504_and_keeps_connection() {
    let (mut s, _) = Session::start(Some(5), true, b"x".to_vec());
    assert_eq!(s.timeout_ms, 5);
    let (result, keep) = finish(s.step(Event::Replied(exchange_outcome(Exchange::TimedOut))));
    let f = result.err().unwrap();
    assert_eq!(f, Failure::Timeout);
    assert_eq!(f.status(), 504);
    assert!(keep);
    assert_eq!(s.phase, Phase::Done);
}

#[test]
fn severed_connection_reconnects_once_and_retries() {
    let (mut s, _) = Session::start(Some(5), true, b"req".to_vec());
    let a = s.step(Event::Replied(exchange_outcome(Exchange::WriteFailed)));
    assert!(matches!(a, Action::Reconnect));
    let a = s.step(Event::Reconnected(true));
    assert!(matches!(a, Action::Send));
    assert_eq!(s.payload, b"req".to_vec());
    let (result, keep) = finish(s.step(Event::Replied(exchange_outcome(Exchange::Tcp(b"ok".to_vec())))));
    assert_eq!(result.unwrap().body, b"ok".to_vec());
    assert!(keep);
}

#[test]
fn second_transport_failure_is_not_retried() {
    let (mut s, _) = Session::start(Some(5), true, b"req".to_vec());
    s.step(Event::Replied(exchange_outcome(Exchange::ReadFailed)));
    s.step(Event::Reconnected(true));
    let (result, _) = finish(s.step(Event::Replied(exchange_outcome(Exchange::ReadFailed))));
    assert_eq!(result.err().unwrap().status(), 502);
    assert!(!s.accepts(&Event::Reconnected(true)));
}

#[test]
fn failed_reconnect_answers_502_and_drops_connection() {
    let (mut s, _) = Session::start(Some(5), true, b"req".to_vec());
    s.step(Event::Replied(exchange_outcome(Exchange::Tcp(Vec::new()))));
    let (result, keep) = finish(s.step(Event::Reconnected(false)));
    assert_eq!(result.err().unwrap(), Failure::Transport);
    assert!(!keep);
}

#[test]
fn control_message_is_protocol_failure_without_retry() {
    let (mut s, _) = Session::start(Some(5), true, b"req".to_vec());
    let (result, keep) = finish(s.step(Event::Replied(exchange_outcome(Exchange::WsOther))));
    let f = result.err().unwrap();
    assert_eq!(f, Failure::Protocol);
    assert_eq!(f.status(), 502);
    assert!(keep);
}

#[test]
fn unconfigured_or_disconnected_backend_answers_500() {
    let (_, a) = Session::start(None, true, Vec::new());
    assert_eq!(finish(a).0.err().unwrap().status(), 500);
    let (_, a) = Session::start(Some(1), false, Vec::new());
    assert_eq!(finish(a).0.err().unwrap(), Failure::Configuration);
}

#[test]
fn session_accepts_only_expected_events() {
    let (s, _) = Session::start(Some(1), true, Vec::new());
    assert!(s.accepts(&Event::Replied(Err(Failure::Timeout))));
    assert!(!s.accepts(&Event::Reconnected(true)));
}

#[test]
fn tcp_read_keeps_only_bytes_read() {
    match tcp_read(vec![1, 2, 3, 4], 2) {
        Exchange::Tcp(b) => assert_eq!(b, vec![1, 2]),
        _ => panic!("expected bytes"),
    }
}

#[test]
fn connect_gives_up_after_three_attempts() {
    assert_eq!(CONNECT_ATTEMPTS, 3);
    assert_eq!(ATTEMPT_WINDOW_MS, 2000);
    let (mut p, step) = ConnectPolicy::new();
    assert_eq!(step, ConnectStep::Attempt);
    assert_eq!(p.on_attempt(false), ConnectStep::Attempt);
    assert_eq!(p.on_attempt(false), ConnectStep::Attempt);
    assert_eq!(p.on_attempt(false), ConnectStep::GaveUp);
    assert_eq!(p.attempts, 3);
}

#[test]
fn connect_stops_at_first_success() {
    let (mut p, _) = ConnectPolicy::new();
    assert_eq!(p.on_attempt(false), ConnectStep::Attempt);
    assert_eq!(p.on_attempt(true), ConnectStep::Connected);
    assert_eq!(p.attempts, 2);
}

#[test]
fn debug_line_for_text_and_binary() {
    assert_eq!(debug_print_bytes(&b"hi".to_vec(), "HTTP"), "Received message from HTTP (2 bytes): hi");
    assert_eq!(
        debug_print_bytes(&vec![0xff; 12], "TCP"),
        "Received message from TCP(12 bytes): <ERROR IN STRINGIFY>"
    );
    assert_eq!(debug_print_bytes(&Vec::new(), "W"), "Received message from W (0 bytes): ");
}

#[test]
fn every_failure_has_its_status() {
    assert_eq!(Failure::Configuration.status(), 500);
    assert_eq!(Failure::Transport.status(), 502);
    assert_eq!(Failure::Timeout.status(), 504);
    assert_eq!(Failure::Protocol.status(), 502);
    assert_eq!(Failure::Upstream.status(), 400);
    assert_eq!(Failure::RequestBody.status(), 400);
}
