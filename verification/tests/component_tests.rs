use esdriver::command::Cmd;
use esdriver::messaging::Action;
use esdriver::package::Pkg;
use esdriver::registry::{Exchange, Registry};
use esdriver::tracker::{HealthTracker, Heartbeat, HeartbeatStatus};
use esdriver::types::Settings;

fn settings(delay: u64, timeout: u64) -> Settings {
    let mut s = Settings::default();
    s.heartbeat_delay = delay;
    s.heartbeat_timeout = timeout;
    s
}

#[test]
fn tracker_probes_after_quiet_delay() {
    let mut t = HealthTracker::new(&settings(750, 1500));
    let mut out: Vec<Action> = Vec::new();

    assert!(matches!(t.manage_heartbeat(1, 100, &mut out), Heartbeat::Valid));
    assert!(matches!(t.state, HeartbeatStatus::Delay(0, 100)));
    assert!(out.is_empty());

    // Within the delay: nothing happens.
    assert!(matches!(t.manage_heartbeat(1, 700, &mut out), Heartbeat::Valid));
    assert!(out.is_empty());

    // Past the delay: one probe, and the timeout clock starts.
    assert!(matches!(t.manage_heartbeat(1, 900, &mut out), Heartbeat::Valid));
    assert_eq!(out.len(), 1);
    assert!(matches!(
        &out[0],
        Action::Send { conn_id: 1, pkg } if pkg.cmd == Cmd::HeartbeatRequest && pkg.payload.is_empty()
    ));
    assert!(matches!(t.state, HeartbeatStatus::Timeout(0, 900)));

    // Silence past the timeout: failure.
    assert!(matches!(t.manage_heartbeat(1, 2500, &mut out), Heartbeat::Failure));
    assert_eq!(out.len(), 1);
}

#[test]
fn tracker_any_traffic_refreshes() {
    let mut t = HealthTracker::new(&settings(750, 1500));
    let mut out: Vec<Action> = Vec::new();
    t.manage_heartbeat(1, 0, &mut out);
    t.manage_heartbeat(1, 800, &mut out);
    assert!(matches!(t.state, HeartbeatStatus::Timeout(0, 800)));

    // A package arrives; the next evaluation returns to the delay state.
    t.incr_pkg_num();
    assert!(matches!(t.manage_heartbeat(1, 3000, &mut out), Heartbeat::Valid));
    assert!(matches!(t.state, HeartbeatStatus::Delay(1, 3000)));
    assert_eq!(out.len(), 1);
}

#[test]
fn tracker_reset_forgets_probe() {
    let mut t = HealthTracker::new(&settings(750, 1500));
    let mut out: Vec<Action> = Vec::new();
    t.manage_heartbeat(1, 0, &mut out);
    t.manage_heartbeat(1, 800, &mut out);
    t.reset();
    assert!(matches!(t.state, HeartbeatStatus::Init));
    // After the reset, old silence does not count.
    assert!(matches!(t.manage_heartbeat(1, 5000, &mut out), Heartbeat::Valid));
    assert!(matches!(t.state, HeartbeatStatus::Delay(0, 5000)));
}

#[test]
fn registry_register_issues_or_parks() {
    let mut s = Settings::default();
    s.operation_timeout = 50;
    s.operation_retry = 1;
    let mut r = Registry::new(&s);
    let mut out: Vec<Action> = Vec::new();

    let parked = r.register(
        Exchange { pkg: Pkg::new(Cmd::ReadEvent, 0), terminal_cmd: Cmd::ReadEventCompleted.to_u8() },
        None,
        0,
        &mut out,
    );
    assert!(out.is_empty());

    let issued = r.register(
        Exchange { pkg: Pkg::new(Cmd::WriteEvents, 0), terminal_cmd: Cmd::WriteEventsCompleted.to_u8() },
        Some(9),
        0,
        &mut out,
    );
    assert_eq!(out.len(), 1);
    assert!(matches!(
        &out[0],
        Action::Send { conn_id: 9, pkg } if pkg.correlation == issued
    ));
    assert_ne!(parked, issued);
    assert_eq!(r.entries.len(), 2);
}

#[test]
fn registry_late_response_is_dropped() {
    let mut r = Registry::new(&Settings::default());
    let mut out: Vec<Action> = Vec::new();
    r.handle(Pkg::new(Cmd::WriteEventsCompleted, 123), 9, 0, &mut out);
    assert!(out.is_empty());
    assert_eq!(r.entries.len(), 0);
}

#[test]
fn registry_check_and_retry_exhausts_budget() {
    let mut s = Settings::default();
    s.operation_timeout = 50;
    s.operation_retry = 2;
    let mut r = Registry::new(&s);
    let mut out: Vec<Action> = Vec::new();
    let corr = r.register(
        Exchange { pkg: Pkg::new(Cmd::WriteEvents, 0), terminal_cmd: Cmd::WriteEventsCompleted.to_u8() },
        Some(9),
        0,
        &mut out,
    );

    let mut out: Vec<Action> = Vec::new();
    r.check_and_retry(9, 60, &mut out);
    assert_eq!(out.len(), 1);
    assert!(matches!(&out[0], Action::Send { conn_id: 9, .. }));

    let mut out: Vec<Action> = Vec::new();
    r.check_and_retry(9, 120, &mut out);
    assert_eq!(out.len(), 1);
    assert!(matches!(&out[0], Action::Send { conn_id: 9, .. }));

    let mut out: Vec<Action> = Vec::new();
    r.check_and_retry(9, 180, &mut out);
    assert!(matches!(
        out.as_slice(),
        [Action::OperationTimedOut { correlation }] if *correlation == corr
    ));
    assert_eq!(r.entries.len(), 0);
}

#[test]
fn registry_fresh_entries_survive_sweep() {
    let mut s = Settings::default();
    s.operation_timeout = 50;
    let mut r = Registry::new(&s);
    let mut out: Vec<Action> = Vec::new();
    r.register(
        Exchange { pkg: Pkg::new(Cmd::ReadEvent, 0), terminal_cmd: Cmd::ReadEventCompleted.to_u8() },
        Some(9),
        100,
        &mut out,
    );
    let mut out: Vec<Action> = Vec::new();
    r.check_and_retry(9, 120, &mut out);
    assert!(out.is_empty());
    assert_eq!(r.entries.len(), 1);
    assert_eq!(r.entries[0].tries, 0);
}
