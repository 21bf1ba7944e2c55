use esdriver::command::Cmd;
use esdriver::driver::{ConnectionState, Driver, DriverError, Phase, Report};
use esdriver::messaging::Action;
use esdriver::package::Pkg;
use esdriver::registry::Exchange;
use esdriver::types::{Credentials, Endpoint, Retry, Settings};

fn quiet_settings() -> Settings {
    // Heartbeat thresholds far away, so handshake and registry tests
    // see no probe traffic.
    let mut s = Settings::default();
    s.heartbeat_delay = 1_000_000;
    s.heartbeat_timeout = 1_000_000;
    s
}

fn endpoint() -> Endpoint {
    Endpoint { host: 0x7F000001, port: 1113 }
}

fn sends_of(out: &[Action]) -> Vec<(u128, u8, u128)> {
    let mut v = Vec::new();
    for a in out {
        if let Action::Send { conn_id, pkg } = a {
            v.push((*conn_id, pkg.cmd.to_u8(), pkg.correlation));
        }
    }
    v
}

/// Walk a driver from `Init` into `Connected` and return the candidate
/// identity.
fn connect(d: &mut Driver, now: u64) -> u128 {
    let mut out: Vec<Action> = Vec::new();
    d.start(now, &mut out);
    d.on_establish(endpoint(), &mut out);
    let cid = match &d.candidate {
        Some(c) => c.id,
        None => panic!("candidate expected"),
    };
    d.on_established(cid, now, &mut out);
    let k = d.init_req_opt.expect("handshake request").correlation;
    d.on_package_arrived(Pkg::new(Cmd::ClientIdentified, k), now, &mut out);
    assert_eq!(d.state, ConnectionState::Connected);
    cid
}

#[test]
fn clean_handshake_without_credentials() {
    let mut d = Driver::new(quiet_settings(), 0);
    assert_eq!(d.state, ConnectionState::Init);
    let mut out: Vec<Action> = Vec::new();

    d.start(0, &mut out);
    assert!(matches!(out.last(), Some(Action::Discover { last: None })));
    assert_eq!(d.state, ConnectionState::Connecting);
    assert_eq!(d.phase, Phase::EndpointDiscovery);

    d.on_establish(endpoint(), &mut out);
    let cid = d.candidate.as_ref().expect("candidate").id;
    assert!(matches!(out.last(), Some(Action::Connect { conn_id, .. }) if *conn_id == cid));

    d.on_established(cid, 5, &mut out);
    let sends = sends_of(&out);
    assert_eq!(sends.len(), 1);
    let (send_conn, send_cmd, k) = sends[0];
    assert_eq!(send_conn, cid);
    assert_eq!(send_cmd, Cmd::IdentifyClient.to_u8());
    assert_eq!(k, d.init_req_opt.expect("handshake request").correlation);

    d.on_package_arrived(Pkg::new(Cmd::ClientIdentified, k), 7, &mut out);
    assert_eq!(d.state, ConnectionState::Connected);
    assert!(d.attempt_opt.is_none());
    assert!(d.init_req_opt.is_none());
}

#[test]
fn auth_then_identify() {
    let mut s = quiet_settings();
    s.default_user = Some(Credentials { login: String::from("u"), password: String::from("p") });
    let mut d = Driver::new(s, 0);
    let mut out: Vec<Action> = Vec::new();

    d.start(0, &mut out);
    d.on_establish(endpoint(), &mut out);
    let cid = d.candidate.as_ref().expect("candidate").id;
    d.on_established(cid, 1, &mut out);

    let sends = sends_of(&out);
    assert_eq!(sends.len(), 1);
    let (_, cmd_a, a) = sends[0];
    assert_eq!(cmd_a, Cmd::Authenticate.to_u8());
    assert_eq!(d.phase, Phase::Authentication);

    d.on_package_arrived(Pkg::new(Cmd::NotAuthenticated, a), 2, &mut out);
    let sends = sends_of(&out);
    assert_eq!(sends.len(), 2);
    let (send_conn, cmd_i, i) = sends[1];
    assert_eq!(send_conn, cid);
    assert_eq!(cmd_i, Cmd::IdentifyClient.to_u8());
    assert_ne!(i, a);
    assert_eq!(d.phase, Phase::Identification);

    d.on_package_arrived(Pkg::new(Cmd::ClientIdentified, i), 3, &mut out);
    assert_eq!(d.state, ConnectionState::Connected);
}

#[test]
fn heartbeat_recovery() {
    let mut s = Settings::default();
    s.heartbeat_delay = 750;
    s.heartbeat_timeout = 1500;
    let mut d = Driver::new(s, 0);
    connect(&mut d, 0);

    let mut out: Vec<Action> = Vec::new();
    // Quiet past the delay: exactly one probe goes out.
    let mut now: u64 = 0;
    while now <= 800 {
        now += 200;
        assert_eq!(d.on_tick(now, &mut out), Report::Continue);
    }
    let probes: Vec<u8> = sends_of(&out).iter().map(|t| t.1).collect();
    assert_eq!(probes, vec![Cmd::HeartbeatRequest.to_u8()]);

    // Any inbound traffic counts as life; no reconnection follows even
    // after the timeout span.
    d.on_package_arrived(Pkg::new(Cmd::Unknown(0x70), 999), now, &mut out);
    let deadline = now + 1600;
    while now <= deadline {
        now += 200;
        d.on_tick(now, &mut out);
    }
    assert_eq!(d.state, ConnectionState::Connected);
}

#[test]
fn heartbeat_timeout_reconnects() {
    let mut s = Settings::default();
    s.heartbeat_delay = 750;
    s.heartbeat_timeout = 1500;
    let mut d = Driver::new(s, 0);
    connect(&mut d, 0);

    let mut out: Vec<Action> = Vec::new();
    let mut now: u64 = 0;
    // Total silence past delay + timeout: the driver closes the
    // candidate and re-enters the reconnection loop.
    while now <= 750 + 1500 + 400 {
        now += 200;
        assert_eq!(d.on_tick(now, &mut out), Report::Continue);
    }
    assert_eq!(d.state, ConnectionState::Connecting);
    assert_eq!(d.phase, Phase::Reconnecting);
    let att = d.attempt_opt.expect("fresh attempt");
    assert_eq!(att.tries, 0);
    assert!(d.candidate.is_none());
    let probes: Vec<u8> = sends_of(&out).iter().map(|t| t.1).collect();
    assert_eq!(probes, vec![Cmd::HeartbeatRequest.to_u8()]);
}

#[test]
fn reconnect_exhaustion() {
    let mut s = quiet_settings();
    s.connection_retry = Retry::Limited(2);
    let mut d = Driver::new(s, 0);
    let mut out: Vec<Action> = Vec::new();

    d.start(0, &mut out);
    // Establishment keeps failing: every attempt dies before
    // `Established` arrives.
    let mut now: u64 = 0;
    let mut quit_at_tick: Option<u32> = None;
    let mut timed_ticks: u32 = 0;
    for _ in 0..3 {
        d.on_establish(endpoint(), &mut out);
        let cid = d.candidate.as_ref().expect("candidate").id;
        d.on_connection_closed(cid, DriverError::Transport, now);
        assert_eq!(d.phase, Phase::Reconnecting);
        now += 3100;
        timed_ticks += 1;
        if d.on_tick(now, &mut out) == Report::Quit {
            quit_at_tick = Some(timed_ticks);
            break;
        }
    }
    assert_eq!(quit_at_tick, Some(3));
    assert_eq!(d.attempt_opt.expect("attempt kept").tries, 2);
}

#[test]
fn operation_timeout_with_retry() {
    let mut s = quiet_settings();
    s.operation_timeout = 50;
    s.operation_check_period = 60;
    s.operation_retry = 1;
    let mut d = Driver::new(s, 0);
    let cid = connect(&mut d, 0);

    let mut out: Vec<Action> = Vec::new();
    let op = Exchange {
        pkg: Pkg::new(Cmd::WriteEvents, 0),
        terminal_cmd: Cmd::WriteEventsCompleted.to_u8(),
    };
    let corr = d.on_new_op(op, 0, &mut out);
    let sends = sends_of(&out);
    assert_eq!(sends, vec![(cid, Cmd::WriteEvents.to_u8(), corr)]);

    // First sweep after the deadline: the package is re-issued once.
    let mut out: Vec<Action> = Vec::new();
    assert_eq!(d.on_tick(70, &mut out), Report::Continue);
    let sends = sends_of(&out);
    assert_eq!(sends, vec![(cid, Cmd::WriteEvents.to_u8(), corr)]);
    assert_eq!(d.registry.entries.len(), 1);

    // Second lapse: the retry budget is spent; the exchange fails with
    // a timeout and its entry is gone.
    let mut out: Vec<Action> = Vec::new();
    assert_eq!(d.on_tick(140, &mut out), Report::Continue);
    assert!(matches!(
        out.as_slice(),
        [Action::OperationTimedOut { correlation }] if *correlation == corr
    ));
    assert_eq!(d.registry.entries.len(), 0);
}

#[test]
fn heartbeat_request_answered_with_same_correlation() {
    let mut d = Driver::new(quiet_settings(), 0);
    let cid = connect(&mut d, 0);

    let mut out: Vec<Action> = Vec::new();
    d.on_package_arrived(Pkg::new(Cmd::HeartbeatRequest, 4242), 1, &mut out);
    let sends = sends_of(&out);
    assert_eq!(sends, vec![(cid, Cmd::HeartbeatResponse.to_u8(), 4242)]);
    assert_eq!(out.len(), 1);
}

#[test]
fn unknown_correlations_are_dropped() {
    let mut d = Driver::new(quiet_settings(), 0);
    connect(&mut d, 0);

    let mut out: Vec<Action> = Vec::new();
    d.on_package_arrived(Pkg::new(Cmd::WriteEventsCompleted, 77), 1, &mut out);
    d.on_package_arrived(Pkg::new(Cmd::Unknown(0x60), 78), 2, &mut out);
    d.on_package_arrived(Pkg::new(Cmd::ClientIdentified, 79), 3, &mut out);
    assert!(out.is_empty());
    assert_eq!(d.registry.entries.len(), 0);
    assert_eq!(d.state, ConnectionState::Connected);
}

#[test]
fn foreign_connection_close_is_a_no_op() {
    let mut d = Driver::new(quiet_settings(), 0);
    let cid = connect(&mut d, 0);

    d.on_connection_closed(cid.wrapping_add(1), DriverError::Transport, 9);
    assert_eq!(d.state, ConnectionState::Connected);
    assert_eq!(d.candidate.as_ref().expect("candidate kept").id, cid);
    assert!(d.attempt_opt.is_none());
}

#[test]
fn close_connection_stops_for_good() {
    let mut d = Driver::new(quiet_settings(), 0);
    connect(&mut d, 0);

    d.close_connection();
    assert_eq!(d.state, ConnectionState::Closed);
    let mut out: Vec<Action> = Vec::new();
    assert_eq!(d.on_tick(1_000_000, &mut out), Report::Continue);
    assert!(out.is_empty());
    assert_eq!(d.state, ConnectionState::Closed);
}

#[test]
fn send_pkg_only_while_connected() {
    let mut d = Driver::new(quiet_settings(), 0);
    let mut out: Vec<Action> = Vec::new();
    d.on_send_pkg(Pkg::new(Cmd::ReadEvent, 5), &mut out);
    assert!(out.is_empty());

    let cid = connect(&mut d, 0);
    d.on_send_pkg(Pkg::new(Cmd::ReadEvent, 5), &mut out);
    assert_eq!(sends_of(&out), vec![(cid, Cmd::ReadEvent.to_u8(), 5)]);
}

#[test]
fn operations_park_until_connected() {
    let mut d = Driver::new(quiet_settings(), 0);
    let mut out: Vec<Action> = Vec::new();

    // Registered while not yet connected: parked, nothing sent.
    let op = Exchange {
        pkg: Pkg::new(Cmd::ReadEvent, 0),
        terminal_cmd: Cmd::ReadEventCompleted.to_u8(),
    };
    let corr = d.on_new_op(op, 0, &mut out);
    assert!(out.is_empty());
    assert_eq!(d.registry.entries.len(), 1);

    // Entering the connected state re-issues the parked exchange.
    let mut out: Vec<Action> = Vec::new();
    d.start(0, &mut out);
    d.on_establish(endpoint(), &mut out);
    let cid = d.candidate.as_ref().expect("candidate").id;
    d.on_established(cid, 1, &mut out);
    let k = d.init_req_opt.expect("handshake request").correlation;
    let mut out: Vec<Action> = Vec::new();
    d.on_package_arrived(Pkg::new(Cmd::ClientIdentified, k), 2, &mut out);
    assert_eq!(sends_of(&out), vec![(cid, Cmd::ReadEvent.to_u8(), corr)]);
}

#[test]
fn multi_step_exchange_stays_until_terminal_response() {
    let mut d = Driver::new(quiet_settings(), 0);
    connect(&mut d, 0);

    let mut out: Vec<Action> = Vec::new();
    let op = Exchange {
        pkg: Pkg::new(Cmd::TransactionStart, 0),
        terminal_cmd: Cmd::TransactionCommitCompleted.to_u8(),
    };
    let corr = d.on_new_op(op, 0, &mut out);

    let mut out: Vec<Action> = Vec::new();
    d.on_package_arrived(Pkg::new(Cmd::TransactionStartCompleted, corr), 1, &mut out);
    assert!(matches!(
        out.as_slice(),
        [Action::Deliver { correlation, .. }] if *correlation == corr
    ));
    assert_eq!(d.registry.entries.len(), 1);

    let mut out: Vec<Action> = Vec::new();
    d.on_package_arrived(Pkg::new(Cmd::TransactionCommitCompleted, corr), 2, &mut out);
    assert!(matches!(
        out.as_slice(),
        [Action::Deliver { correlation, .. }] if *correlation == corr
    ));
    assert_eq!(d.registry.entries.len(), 0);
}

#[test]
fn auth_timeout_falls_forward_to_identification() {
    let mut s = quiet_settings();
    s.operation_timeout = 100;
    s.default_user = Some(Credentials { login: String::from("u"), password: String::from("p") });
    let mut d = Driver::new(s, 0);
    let mut out: Vec<Action> = Vec::new();

    d.start(0, &mut out);
    d.on_establish(endpoint(), &mut out);
    let cid = d.candidate.as_ref().expect("candidate").id;
    d.on_established(cid, 0, &mut out);
    assert_eq!(d.phase, Phase::Authentication);

    // No answer within the operation timeout: identification begins.
    assert_eq!(d.on_tick(150, &mut out), Report::Continue);
    assert_eq!(d.phase, Phase::Identification);
    let last = sends_of(&out);
    assert_eq!(last.last().expect("identify sent").1, Cmd::IdentifyClient.to_u8());
}

#[test]
fn identification_timeout_is_fatal() {
    let mut s = quiet_settings();
    s.operation_timeout = 100;
    let mut d = Driver::new(s, 0);
    let mut out: Vec<Action> = Vec::new();

    d.start(0, &mut out);
    d.on_establish(endpoint(), &mut out);
    let cid = d.candidate.as_ref().expect("candidate").id;
    d.on_established(cid, 0, &mut out);
    assert_eq!(d.phase, Phase::Identification);

    assert_eq!(d.on_tick(150, &mut out), Report::Quit);
}
