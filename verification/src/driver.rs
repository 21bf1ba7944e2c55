//! The driver state machine.
//!
//! One logical connection is kept healthy against an endpoint source:
//! the driver sequences discovery, establishment, the handshake
//! (optional authentication, then client identification), dispatches
//! inbound packages, polls timeouts on a periodic tick, and bounds
//! reconnection attempts.  Each handler consumes one event at instant
//! `now` (milliseconds on the host's monotonic scale) and appends the
//! outward work it decides on to `out`.

use vstd::prelude::*;
use crate::command::Cmd;
use crate::messaging::{Action, is_heartbeat_probe, pushed_heartbeat_probe, seq_action_eqv};
use crate::package::{Pkg, fresh_id, name_payload};
use crate::registry::{
    Exchange,
    Registry,
    contains_corr,
    handled,
    registered,
    registered_actions,
    reissue_actions,
    reissue_entry,
    sweep_actions,
    sweep_entries,
};
use crate::tracker::{HealthTracker, Heartbeat, HeartbeatStatus, hb_step, next_pkg_num};
use crate::types::{Credentials, Endpoint, Settings, dur_since, elapsed_ms};

verus! {

/// The outer lifecycle of the driver.
#[derive(Copy, Clone, PartialEq, Eq, Structural, Debug)]
pub enum ConnectionState {
    Init,
    Connecting,
    Connected,
    Closed,
}

impl ConnectionState {
    pub fn is_connected(&self) -> (r: bool)
        ensures
            r == (*self is Connected),
    {
        *self == ConnectionState::Connected
    }
}

/// Handshake progress; only meaningful while `Connecting`.
#[derive(Copy, Clone, PartialEq, Eq, Structural, Debug)]
pub enum Phase {
    Reconnecting,
    EndpointDiscovery,
    Establishing,
    Authentication,
    Identification,
}

/// What a tick reports to the host loop: keep going, or drop the
/// driver for good.
#[derive(Copy, Clone, PartialEq, Eq, Structural, Debug)]
pub enum Report {
    Continue,
    Quit,
}

/// The error kinds the driver distinguishes when a connection dies.
#[derive(Copy, Clone, PartialEq, Eq, Structural, Debug)]
pub enum DriverError {
    HeartbeatTimeout,
    Transport,
}

/// The error fed through the close path when the peer went silent.
pub fn heartbeat_timeout_error() -> (r: DriverError)
    ensures
        r == DriverError::HeartbeatTimeout,
{
    DriverError::HeartbeatTimeout
}

/// A connection handle: a 128-bit identity and the endpoint it is
/// bound to.  At most one handle is live at a time.
#[derive(Copy, Clone, PartialEq, Eq, Structural, Debug)]
pub struct Connection {
    pub id: u128,
    pub endpoint: Endpoint,
}

impl Connection {
    /// A handle bound to `endpoint` under a freshly drawn identity.
    pub fn new(endpoint: Endpoint) -> (r: Connection)
        ensures
            r.endpoint == endpoint,
    {
        Connection { id: fresh_id(), endpoint }
    }
}

/// The one outstanding handshake request: its correlation and when it
/// was issued.
#[derive(Copy, Clone, PartialEq, Eq, Structural, Debug)]
pub struct InitReq {
    pub correlation: u128,
    pub started: u64,
}

impl InitReq {
    pub fn new(id: u128, now: u64) -> (r: InitReq)
        ensures
            r.correlation == id,
            r.started == now,
    {
        InitReq { correlation: id, started: now }
    }
}

/// Bookkeeping for one contiguous reconnection run.
#[derive(Copy, Clone, PartialEq, Eq, Structural, Debug)]
pub struct Attempt {
    pub started: u64,
    pub tries: u32,
}

impl Attempt {
    pub fn new(now: u64) -> (r: Attempt)
        ensures
            r.started == now,
            r.tries == 0,
    {
        Attempt { started: now, tries: 0 }
    }
}

/// The driver.  All fields are plain state; every mutation happens in
/// a handler below.
pub struct Driver {
    pub registry: Registry,
    pub candidate: Option<Connection>,
    pub tracker: HealthTracker,
    pub attempt_opt: Option<Attempt>,
    pub state: ConnectionState,
    pub phase: Phase,
    pub last_endpoint: Option<Endpoint>,
    pub connection_name: Option<String>,
    pub default_user: Option<Credentials>,
    pub operation_timeout: u64,
    pub init_req_opt: Option<InitReq>,
    pub reconnect_delay: u64,
    pub max_reconnect: u32,
    pub operation_check_period: u64,
    pub last_operation_check: u64,
}

/// The configuration fields no handler ever changes.
pub open spec fn same_config(a: Driver, b: Driver) -> bool {
    &&& b.connection_name == a.connection_name
    &&& b.default_user == a.default_user
    &&& b.operation_timeout == a.operation_timeout
    &&& b.reconnect_delay == a.reconnect_delay
    &&& b.max_reconnect == a.max_reconnect
    &&& b.operation_check_period == a.operation_check_period
    &&& b.registry.operation_timeout == a.registry.operation_timeout
    &&& b.registry.max_retries == a.registry.max_retries
    &&& b.tracker.heartbeat_delay == a.tracker.heartbeat_delay
    &&& b.tracker.heartbeat_timeout == a.tracker.heartbeat_timeout
}

/// The unified close transition: a dead connection re-enters the
/// reconnection loop.  From `Connected` a fresh attempt begins; from
/// `Connecting` the pending attempt keeps counting; `Init` and
/// `Closed` are untouched.
pub open spec fn spec_tcp_close(d: Driver, now: u64) -> Driver {
    if d.state is Connected {
        Driver {
            attempt_opt: Some(Attempt { started: now, tries: 0 }),
            state: ConnectionState::Connecting,
            phase: Phase::Reconnecting,
            ..d
        }
    } else if d.state is Connecting {
        Driver { state: ConnectionState::Connecting, phase: Phase::Reconnecting, ..d }
    } else {
        d
    }
}

/// The driver after one heartbeat evaluation: the tracker steps; on
/// failure the candidate is taken out and the close transition runs.
pub open spec fn after_heartbeat(d: Driver, now: u64) -> Driver {
    let stepped = hb_step(d.tracker, now);
    if d.candidate is Some {
        if stepped.2 {
            spec_tcp_close(Driver { tracker: stepped.0, candidate: None, ..d }, now)
        } else {
            Driver { tracker: stepped.0, ..d }
        }
    } else {
        d
    }
}

/// Whether one heartbeat evaluation emits a probe.
pub open spec fn heartbeat_probed(d: Driver, now: u64) -> bool {
    d.candidate is Some && hb_step(d.tracker, now).1
}

/// The tries of the pending attempt (zero when none is pending).
pub open spec fn attempt_tries(d: Driver) -> u32 {
    match d.attempt_opt {
        Some(a) => a.tries,
        None => 0,
    }
}

/// The candidate's identity (zero when none is held; every use below
/// is guarded by the invariant, under which a candidate exists).
pub open spec fn candidate_id(d: Driver) -> u128 {
    match d.candidate {
        Some(c) => c.id,
        None => 0,
    }
}

/// The inbound package completes the identification step: the right
/// opcode, the right phase, and the recorded handshake correlation.
pub open spec fn identification_hit(d: Driver, pkg: Pkg) -> bool {
    &&& pkg.cmd.spec_to_u8() == Cmd::ClientIdentified.spec_to_u8()
    &&& d.state is Connecting
    &&& d.phase is Identification
    &&& d.init_req_opt matches Some(req) && req.correlation == pkg.correlation
}

/// The inbound package answers the authentication step, successfully
/// or not.
pub open spec fn authentication_hit(d: Driver, pkg: Pkg) -> bool {
    &&& (pkg.cmd.spec_to_u8() == Cmd::Authenticated.spec_to_u8() || pkg.cmd.spec_to_u8()
        == Cmd::NotAuthenticated.spec_to_u8())
    &&& d.state is Connecting
    &&& d.phase is Authentication
    &&& d.init_req_opt matches Some(req) && req.correlation == pkg.correlation
}

/// Whether the driver knows the package's correlation: it is the
/// recorded handshake correlation or a registered exchange's.
pub open spec fn known_correlation(d: Driver, pkg: Pkg) -> bool {
    ||| (d.init_req_opt matches Some(req) && req.correlation == pkg.correlation)
    ||| contains_corr(d.registry.entries@, pkg.correlation)
}

/// A failing heartbeat evaluation of a connected driver re-enters the
/// reconnection loop with a fresh attempt.  Together with
/// [`crate::tracker::lemma_silent_peer_fails`], which drives the
/// tracker to exactly one probe and then a declared failure under
/// silence, this pins the fate of a connected driver whose peer went
/// quiet: one `HeartbeatRequest`, then `Connecting`/`Reconnecting`.
pub proof fn lemma_heartbeat_failure_reconnects(d: Driver, now: u64)
    requires
        d.state is Connected,
        d.candidate is Some,
        hb_step(d.tracker, now).2,
    ensures
        after_heartbeat(d, now).state is Connecting,
        after_heartbeat(d, now).phase is Reconnecting,
        after_heartbeat(d, now).candidate is None,
        attempt_tries(after_heartbeat(d, now)) == 0,
{
}

impl Driver {
    /// The driver's invariant: the registry is well formed; `Init` and
    /// `Closed` hold no handle, no attempt and no handshake request;
    /// `Connected` holds a live handle and nothing pending; every
    /// `Connecting` phase past discovery holds a handle; the handshake
    /// phases hold exactly one outstanding request; tries never exceed
    /// the bound.
    pub open spec fn wf(self) -> bool {
        &&& self.registry.wf()
        &&& (self.state is Init || self.state is Closed) ==> (self.candidate is None
            && self.attempt_opt is None && self.init_req_opt is None)
        &&& self.state is Connected ==> (self.candidate is Some && self.attempt_opt is None
            && self.init_req_opt is None)
        &&& self.state is Connecting ==> self.attempt_opt is Some
        &&& (self.state is Connecting && (self.phase is Establishing || self.phase is Authentication
            || self.phase is Identification)) ==> self.candidate is Some
        &&& (self.state is Connecting && (self.phase is Authentication
            || self.phase is Identification)) ==> self.init_req_opt is Some
        &&& (self.attempt_opt matches Some(a) ==> a.tries <= self.max_reconnect)
    }

    /// Whether `id` names the current candidate.
    pub open spec fn spec_is_same_connection(self, id: u128) -> bool {
        self.candidate matches Some(c) && c.id == id
    }

    /// Whether the pending handshake request is older than the
    /// operation timeout.
    pub open spec fn spec_has_init_req_timeout(self, now: u64) -> bool {
        self.init_req_opt matches Some(req) && dur_since(now, req.started)
            >= self.operation_timeout
    }

    /// Whether the pending attempt is older than the reconnect delay.
    pub open spec fn spec_conn_has_timeout(self, now: u64) -> bool {
        self.attempt_opt matches Some(a) && dur_since(now, a.started) >= self.reconnect_delay
    }

    /// The identity packages are issued on: the candidate's, while
    /// connected.
    pub open spec fn spec_live_conn(self) -> Option<u128> {
        if self.state is Connected {
            match self.candidate {
                Some(c) => Some(c.id),
                None => None,
            }
        } else {
            None
        }
    }

    pub fn new(setts: Settings, now: u64) -> (r: Driver)
        ensures
            r.wf(),
            r.state is Init,
            r.phase is Reconnecting,
            r.candidate is None,
            r.attempt_opt is None,
            r.init_req_opt is None,
            r.last_endpoint is None,
            r.registry.entries@.len() == 0,
            r.registry.operation_timeout == setts.operation_timeout,
            r.registry.max_retries == setts.operation_retry,
            r.tracker.pkg_num == 0,
            r.tracker.state is Init,
            r.tracker.heartbeat_delay == setts.heartbeat_delay,
            r.tracker.heartbeat_timeout == setts.heartbeat_timeout,
            r.connection_name == setts.connection_name,
            r.default_user == setts.default_user,
            r.operation_timeout == setts.operation_timeout,
            r.reconnect_delay == 3000,
            r.max_reconnect == setts.connection_retry.spec_to_u32(),
            r.operation_check_period == setts.operation_check_period,
            r.last_operation_check == now,
    {
        let registry = Registry::new(&setts);
        let tracker = HealthTracker::new(&setts);
        let max_reconnect = setts.connection_retry.to_u32();
        let Settings {
            connection_name,
            default_user,
            operation_timeout,
            operation_check_period,
            ..
        } = setts;
        Driver {
            registry,
            candidate: None,
            tracker,
            attempt_opt: None,
            state: ConnectionState::Init,
            phase: Phase::Reconnecting,
            last_endpoint: None,
            connection_name,
            default_user,
            operation_timeout,
            init_req_opt: None,
            reconnect_delay: 3000,
            max_reconnect,
            operation_check_period,
            last_operation_check: now,
        }
    }

    /// Begin the lifecycle: enter the reconnection loop and ask for the
    /// first endpoint.  Called exactly once, from `Init`; the host also
    /// starts the periodic tick.
    pub fn start(&mut self, now: u64, out: &mut Vec<Action>)
        requires
            old(self).wf(),
            old(self).state is Init,
        ensures
            final(self).wf(),
            same_config(*old(self), *final(self)),
            *final(self) == (Driver {
                attempt_opt: Some(Attempt { started: now, tries: 0 }),
                state: ConnectionState::Connecting,
                phase: Phase::EndpointDiscovery,
                tracker: (HealthTracker { state: HeartbeatStatus::Init, ..old(self).tracker }),
                ..*old(self)
            }),
            final(out)@ == old(out)@.push(Action::Discover { last: old(self).last_endpoint }),
    {
        self.attempt_opt = Some(Attempt::new(now));
        self.state = ConnectionState::Connecting;
        self.phase = Phase::Reconnecting;
        self.discover(out);
    }

    /// Ask the host to run discovery; guarded by the reconnection
    /// phase.  The tracker is reset so the fresh stream starts quiet.
    fn discover(&mut self, out: &mut Vec<Action>)
        requires
            old(self).wf(),
        ensures
            final(self).wf(),
            same_config(*old(self), *final(self)),
            (old(self).state is Connecting && old(self).phase is Reconnecting) ==> (*final(self)
                == (Driver {
                phase: Phase::EndpointDiscovery,
                tracker: (HealthTracker { state: HeartbeatStatus::Init, ..old(self).tracker }),
                ..*old(self)
            }) && final(out)@ == old(out)@.push(
                Action::Discover { last: old(self).last_endpoint },
            )),
            !(old(self).state is Connecting && old(self).phase is Reconnecting) ==> (*final(self)
                == *old(self) && final(out)@ == old(out)@),
    {
        if self.state == ConnectionState::Connecting && self.phase == Phase::Reconnecting {
            self.phase = Phase::EndpointDiscovery;
            self.tracker.reset();
            out.push(Action::Discover { last: self.last_endpoint });
        }
    }

    /// A discovered endpoint: create the candidate handle, remember the
    /// endpoint, and ask the host to open the stream.
    pub fn on_establish(&mut self, endpoint: Endpoint, out: &mut Vec<Action>)
        requires
            old(self).wf(),
        ensures
            final(self).wf(),
            same_config(*old(self), *final(self)),
            (old(self).state is Connecting && old(self).phase is EndpointDiscovery) ==> ({
                &&& final(self).candidate matches Some(c)
                &&& c.endpoint == endpoint
                &&& *final(self) == (Driver {
                    candidate: final(self).candidate,
                    phase: Phase::Establishing,
                    last_endpoint: Some(endpoint),
                    ..*old(self)
                })
                &&& final(out)@ == old(out)@.push(Action::Connect { conn_id: c.id, endpoint })
            }),
            !(old(self).state is Connecting && old(self).phase is EndpointDiscovery) ==> (
                *final(self) == *old(self) && final(out)@ == old(out)@),
    {
        if self.state == ConnectionState::Connecting && self.phase == Phase::EndpointDiscovery {
            let conn = Connection::new(endpoint);
            out.push(Action::Connect { conn_id: conn.id, endpoint });
            self.candidate = Some(conn);
            self.last_endpoint = Some(endpoint);
            self.phase = Phase::Establishing;
        }
    }

    /// Issue the `Authenticate` handshake step and record its
    /// correlation as the one outstanding handshake request.
    fn authenticate(&mut self, creds: Credentials, now: u64, out: &mut Vec<Action>)
        requires
            old(self).registry.wf(),
            old(self).state is Connecting,
            old(self).phase is Establishing,
            old(self).candidate is Some,
            old(self).attempt_opt matches Some(a) && a.tries <= old(self).max_reconnect,
        ensures
            final(self).wf(),
            same_config(*old(self), *final(self)),
            ({
                &&& old(self).candidate matches Some(cand)
                &&& final(self).init_req_opt matches Some(req)
                &&& req.started == now
                &&& *final(self) == (Driver {
                    init_req_opt: final(self).init_req_opt,
                    phase: Phase::Authentication,
                    ..*old(self)
                })
                &&& final(out)@ == old(out)@.push(final(out)@.last())
                &&& final(out)@.last() matches Action::Send { conn_id, pkg }
                &&& conn_id == cand.id
                &&& pkg.cmd == Cmd::Authenticate
                &&& pkg.correlation == req.correlation
                &&& pkg.creds_opt == Some(creds)
                &&& pkg.payload@ == Seq::<u8>::empty()
            }),
    {
        if self.state == ConnectionState::Connecting && self.phase == Phase::Establishing {
            let pkg = Pkg::authenticate(creds);
            self.init_req_opt = Some(InitReq::new(pkg.correlation, now));
            self.phase = Phase::Authentication;
            if let Some(conn) = &self.candidate {
                out.push(Action::Send { conn_id: conn.id, pkg });
            }
        }
    }

    /// Issue the `IdentifyClient` handshake step and record its
    /// correlation as the one outstanding handshake request.
    fn identify_client(&mut self, now: u64, out: &mut Vec<Action>)
        requires
            old(self).registry.wf(),
            old(self).state is Connecting,
            old(self).phase is Authentication || old(self).phase is Establishing,
            old(self).candidate is Some,
            old(self).attempt_opt matches Some(a) && a.tries <= old(self).max_reconnect,
        ensures
            final(self).wf(),
            same_config(*old(self), *final(self)),
            ({
                &&& old(self).candidate matches Some(cand)
                &&& final(self).init_req_opt matches Some(req)
                &&& req.started == now
                &&& *final(self) == (Driver {
                    init_req_opt: final(self).init_req_opt,
                    phase: Phase::Identification,
                    ..*old(self)
                })
                &&& final(out)@ == old(out)@.push(final(out)@.last())
                &&& final(out)@.last() matches Action::Send { conn_id, pkg }
                &&& conn_id == cand.id
                &&& pkg.cmd == Cmd::IdentifyClient
                &&& pkg.correlation == req.correlation
                &&& pkg.creds_opt is None
                &&& pkg.payload@ == name_payload(old(self).connection_name)
            }),
    {
        if self.state == ConnectionState::Connecting && (self.phase == Phase::Authentication
            || self.phase == Phase::Establishing) {
            let pkg = Pkg::identify_client(&self.connection_name);
            self.init_req_opt = Some(InitReq::new(pkg.correlation, now));
            self.phase = Phase::Identification;
            if let Some(conn) = &self.candidate {
                out.push(Action::Send { conn_id: conn.id, pkg });
            }
        }
    }

    /// The stream under the candidate's identity became writable: start
    /// the handshake — authentication when default credentials are
    /// configured, else identification.  Stale acknowledgements from
    /// prior sockets are discarded.
    pub fn on_established(&mut self, id: u128, now: u64, out: &mut Vec<Action>)
        requires
            old(self).wf(),
        ensures
            final(self).wf(),
            same_config(*old(self), *final(self)),
            (old(self).state is Connecting && old(self).phase is Establishing
                && old(self).spec_is_same_connection(id)) ==> ({
                &&& old(self).candidate matches Some(cand)
                &&& final(self).init_req_opt matches Some(req)
                &&& req.started == now
                &&& final(out)@ == old(out)@.push(final(out)@.last())
                &&& final(out)@.last() matches Action::Send { conn_id, pkg }
                &&& conn_id == cand.id
                &&& pkg.correlation == req.correlation
                &&& match old(self).default_user {
                    Some(creds) => {
                        &&& *final(self) == (Driver {
                            init_req_opt: final(self).init_req_opt,
                            phase: Phase::Authentication,
                            tracker: (HealthTracker {
                                state: HeartbeatStatus::Init,
                                ..old(self).tracker
                            }),
                            ..*old(self)
                        })
                        &&& pkg.cmd == Cmd::Authenticate
                        &&& pkg.creds_opt == Some(creds)
                        &&& pkg.payload@ == Seq::<u8>::empty()
                    },
                    None => {
                        &&& *final(self) == (Driver {
                            init_req_opt: final(self).init_req_opt,
                            phase: Phase::Identification,
                            tracker: (HealthTracker {
                                state: HeartbeatStatus::Init,
                                ..old(self).tracker
                            }),
                            ..*old(self)
                        })
                        &&& pkg.cmd == Cmd::IdentifyClient
                        &&& pkg.creds_opt is None
                        &&& pkg.payload@ == name_payload(old(self).connection_name)
                    },
                }
            }),
            !(old(self).state is Connecting && old(self).phase is Establishing
                && old(self).spec_is_same_connection(id)) ==> (
                *final(self) == *old(self) && final(out)@ == old(out)@),
    {
        if self.state == ConnectionState::Connecting && self.phase == Phase::Establishing {
            let same = match &self.candidate {
                Some(conn) => conn.id == id,
                None => false,
            };
            if same {
                self.tracker.reset();
                let creds_opt = match &self.default_user {
                    Some(c) => Some(c.clone()),
                    None => None,
                };
                match creds_opt {
                    Some(creds) => self.authenticate(creds, now, out),
                    None => self.identify_client(now, out),
                }
            }
        }
    }

    fn is_same_connection(&self, conn_id: u128) -> (r: bool)
        ensures
            r == self.spec_is_same_connection(conn_id),
    {
        match &self.candidate {
            Some(conn) => conn.id == conn_id,
            None => false,
        }
    }

    /// The unified close transition; see [`spec_tcp_close`].
    fn tcp_connection_close(&mut self, _err: DriverError, now: u64)
        requires
            old(self).registry.wf(),
            old(self).state is Connecting ==> old(self).attempt_opt is Some,
            old(self).attempt_opt matches Some(a) ==> a.tries <= old(self).max_reconnect,
            (old(self).state is Init || old(self).state is Closed) ==> (old(self).candidate is None
                && old(self).attempt_opt is None && old(self).init_req_opt is None),
        ensures
            final(self).wf(),
            same_config(*old(self), *final(self)),
            *final(self) == spec_tcp_close(*old(self), now),
    {
        match self.state {
            ConnectionState::Connected => {
                self.attempt_opt = Some(Attempt::new(now));
                self.state = ConnectionState::Connecting;
                self.phase = Phase::Reconnecting;
            },
            ConnectionState::Connecting => {
                self.state = ConnectionState::Connecting;
                self.phase = Phase::Reconnecting;
            },
            _ => {},
        }
    }

    /// The transport reported the connection dead.  A report for any
    /// other identity is a complete no-op; for the candidate, the
    /// close transition re-enters the reconnection loop.
    pub fn on_connection_closed(&mut self, conn_id: u128, _error: DriverError, now: u64)
        requires
            old(self).wf(),
        ensures
            final(self).wf(),
            same_config(*old(self), *final(self)),
            !old(self).spec_is_same_connection(conn_id) ==> *final(self) == *old(self),
            old(self).spec_is_same_connection(conn_id) ==> *final(self) == spec_tcp_close(
                *old(self),
                now,
            ),
            (old(self).state is Connecting && final(self).state is Connecting) ==> attempt_tries(
                *old(self),
            ) <= attempt_tries(*final(self)),
    {
        if self.is_same_connection(conn_id) {
            self.tcp_connection_close(_error, now);
        }
    }

    /// Stop for good: no further reconnection; subsequent ticks are
    /// no-ops.
    pub fn close_connection(&mut self)
        requires
            old(self).wf(),
        ensures
            final(self).wf(),
            same_config(*old(self), *final(self)),
            *final(self) == (Driver {
                state: ConnectionState::Closed,
                candidate: None,
                attempt_opt: None,
                init_req_opt: None,
                ..*old(self)
            }),
    {
        self.state = ConnectionState::Closed;
        self.candidate = None;
        self.attempt_opt = None;
        self.init_req_opt = None;
    }

    /// Accept a new exchange: registered under a fresh correlation
    /// (returned), issued immediately while connected, parked
    /// otherwise.
    pub fn on_new_op(&mut self, operation: Exchange, now: u64, out: &mut Vec<Action>) -> (corr:
        u128)
        requires
            old(self).wf(),
        ensures
            final(self).wf(),
            same_config(*old(self), *final(self)),
            *final(self) == (Driver { registry: final(self).registry, ..*old(self) }),
            registered(
                old(self).registry,
                final(self).registry,
                corr,
                operation,
                old(self).spec_live_conn(),
                now,
            ),
            registered_actions(
                old(out)@,
                final(out)@,
                corr,
                operation,
                old(self).spec_live_conn(),
                now,
            ),
    {
        let conn_opt: Option<u128> = if self.state.is_connected() {
            match &self.candidate {
                Some(c) => Some(c.id),
                None => None,
            }
        } else {
            None
        };
        self.registry.register(operation, conn_opt, now, out)
    }

    fn has_init_req_timeout(&self, now: u64) -> (r: bool)
        ensures
            r == self.spec_has_init_req_timeout(now),
    {
        match &self.init_req_opt {
            Some(req) => elapsed_ms(now, req.started) >= self.operation_timeout,
            None => false,
        }
    }

    fn conn_has_timeout(&self, now: u64) -> (r: bool)
        ensures
            r == self.spec_conn_has_timeout(now),
    {
        match &self.attempt_opt {
            Some(att) => elapsed_ms(now, att.started) >= self.reconnect_delay,
            None => false,
        }
    }

    /// Advance the pending attempt: while tries are left, count one and
    /// restart its clock; with the budget spent, report `false` and
    /// leave the attempt as it is.
    fn start_new_attempt(&mut self, now: u64) -> (r: bool)
        ensures
            same_config(*old(self), *final(self)),
            ({
                match old(self).attempt_opt {
                    Some(a) => {
                        &&& r == (a.tries < old(self).max_reconnect)
                        &&& r ==> *final(self) == (Driver {
                            attempt_opt: Some(
                                Attempt { started: now, tries: (a.tries + 1) as u32 },
                            ),
                            ..*old(self)
                        })
                        &&& !r ==> *final(self) == *old(self)
                    },
                    None => {
                        &&& r == false
                        &&& *final(self) == *old(self)
                    },
                }
            }),
    {
        let (has, tries) = match &self.attempt_opt {
            Some(att) => (true, att.tries),
            None => (false, 0),
        };
        if has && tries < self.max_reconnect {
            self.attempt_opt = Some(Attempt { started: now, tries: tries + 1 });
            true
        } else {
            false
        }
    }

    /// Consult the tracker against the candidate; on failure take the
    /// candidate out and run the close transition with a heartbeat
    /// timeout error.
    fn manage_heartbeat(&mut self, now: u64, out: &mut Vec<Action>)
        requires
            old(self).wf(),
        ensures
            final(self).wf(),
            same_config(*old(self), *final(self)),
            *final(self) == after_heartbeat(*old(self), now),
            heartbeat_probed(*old(self), now) ==> ({
                &&& old(self).candidate matches Some(cand)
                &&& pushed_heartbeat_probe(old(out)@, final(out)@, cand.id)
            }),
            !heartbeat_probed(*old(self), now) ==> final(out)@ == old(out)@,
    {
        let (has, cid) = match &self.candidate {
            Some(conn) => (true, conn.id),
            None => (false, 0),
        };
        if has {
            let verdict = self.tracker.manage_heartbeat(cid, now, out);
            match verdict {
                Heartbeat::Failure => {
                    self.candidate = None;
                    self.tcp_connection_close(heartbeat_timeout_error(), now);
                },
                Heartbeat::Valid => {},
            }
        }
    }

    /// An inbound package.  The package counter always ticks; then the
    /// package either advances the handshake (matched by the recorded
    /// correlation), answers or is answered as a heartbeat, is
    /// dispatched to the registry while connected, or is silently
    /// dropped.
    pub fn on_package_arrived(&mut self, pkg: Pkg, now: u64, out: &mut Vec<Action>)
        requires
            old(self).wf(),
        ensures
            final(self).wf(),
            same_config(*old(self), *final(self)),
            final(self).tracker == (HealthTracker {
                pkg_num: next_pkg_num(old(self).tracker.pkg_num),
                ..old(self).tracker
            }),
            (old(self).state is Connecting && final(self).state is Connecting) ==> attempt_tries(
                *old(self),
            ) <= attempt_tries(*final(self)),
            final(self).state is Connected ==> final(self).attempt_opt is None,
            // An unknown correlation changes no registry entry and, but
            // for the immediate heartbeat response, emits nothing.
            !known_correlation(*old(self), pkg) ==> final(self).registry.entries@
                == old(self).registry.entries@,
            (!known_correlation(*old(self), pkg) && !(old(self).state is Connected
                && pkg.cmd.spec_to_u8() == Cmd::HeartbeatRequest.spec_to_u8())) ==> final(out)@
                == old(out)@,
            // Identification completes: connected, attempt cleared,
            // parked exchanges re-issued on the candidate.
            identification_hit(*old(self), pkg) ==> ({
                let cid = candidate_id(*old(self));
                &&& *final(self) == (Driver {
                    tracker: final(self).tracker,
                    attempt_opt: None,
                    init_req_opt: None,
                    state: ConnectionState::Connected,
                    last_operation_check: now,
                    registry: final(self).registry,
                    ..*old(self)
                })
                &&& final(self).registry.entries@.len() == old(self).registry.entries@.len()
                &&& (forall|k: int|
                    0 <= k < old(self).registry.entries@.len() ==> final(self).registry.entries@[k]
                        == reissue_entry(#[trigger] old(self).registry.entries@[k], cid, now))
                &&& final(out)@.len() >= old(out)@.len()
                &&& final(out)@.take(old(out)@.len() as int) == old(out)@
                &&& seq_action_eqv(
                    final(out)@.skip(old(out)@.len() as int),
                    reissue_actions(old(self).registry.entries@, cid, now),
                )
            }),
            // An authentication result, successful or not, proceeds to
            // identification.
            authentication_hit(*old(self), pkg) ==> ({
                &&& final(self).init_req_opt matches Some(req)
                &&& req.started == now
                &&& *final(self) == (Driver {
                    tracker: final(self).tracker,
                    init_req_opt: final(self).init_req_opt,
                    phase: Phase::Identification,
                    ..*old(self)
                })
                &&& final(out)@ == old(out)@.push(final(out)@.last())
                &&& final(out)@.last() matches Action::Send { conn_id, pkg: sent }
                &&& conn_id == candidate_id(*old(self))
                &&& sent.cmd == Cmd::IdentifyClient
                &&& sent.correlation == req.correlation
                &&& sent.creds_opt is None
                &&& sent.payload@ == name_payload(old(self).connection_name)
            }),
            // Every heartbeat request while connected is answered with
            // exactly one response under the identical correlation.
            (old(self).state is Connected && pkg.cmd.spec_to_u8()
                == Cmd::HeartbeatRequest.spec_to_u8()) ==> ({
                &&& *final(self) == (Driver { tracker: final(self).tracker, ..*old(self) })
                &&& final(out)@ == old(out)@.push(final(out)@.last())
                &&& final(out)@.last() matches Action::Send { conn_id, pkg: resp }
                &&& conn_id == candidate_id(*old(self))
                &&& resp.cmd == Cmd::HeartbeatResponse
                &&& resp.correlation == pkg.correlation
                &&& resp.creds_opt is None
                &&& resp.payload@ == Seq::<u8>::empty()
            }),
            // A heartbeat response is consumed by the counter alone.
            (old(self).state is Connected && pkg.cmd.spec_to_u8()
                == Cmd::HeartbeatResponse.spec_to_u8()) ==> (*final(self) == (Driver {
                tracker: final(self).tracker,
                ..*old(self)
            }) && final(out)@ == old(out)@),
            // Any other package while connected goes to the registry.
            (old(self).state is Connected && pkg.cmd.spec_to_u8()
                != Cmd::HeartbeatRequest.spec_to_u8() && pkg.cmd.spec_to_u8()
                != Cmd::HeartbeatResponse.spec_to_u8()) ==> (*final(self) == (Driver {
                tracker: final(self).tracker,
                registry: final(self).registry,
                ..*old(self)
            }) && handled(
                old(self).registry,
                final(self).registry,
                pkg,
                candidate_id(*old(self)),
                now,
                old(out)@,
                final(out)@,
            )),
            // Every other combination is silently dropped.
            (!identification_hit(*old(self), pkg) && !authentication_hit(*old(self), pkg)
                && !(old(self).state is Connected)) ==> (*final(self) == (Driver {
                tracker: final(self).tracker,
                ..*old(self)
            }) && final(out)@ == old(out)@),
    {
        self.tracker.incr_pkg_num();
        if pkg.cmd == Cmd::ClientIdentified && self.state == ConnectionState::Connecting
            && self.phase == Phase::Identification {
            let matched = match &self.init_req_opt {
                Some(req) => req.correlation == pkg.correlation,
                None => false,
            };
            if matched {
                self.init_req_opt = None;
                self.attempt_opt = None;
                self.last_operation_check = now;
                self.state = ConnectionState::Connected;
                let (has, cid) = match &self.candidate {
                    Some(c) => (true, c.id),
                    None => (false, 0),
                };
                if has {
                    self.registry.reissue_parked(cid, now, out);
                }
            }
        } else if (pkg.cmd == Cmd::Authenticated || pkg.cmd == Cmd::NotAuthenticated)
            && self.state == ConnectionState::Connecting && self.phase == Phase::Authentication {
            let matched = match &self.init_req_opt {
                Some(req) => req.correlation == pkg.correlation,
                None => false,
            };
            if matched {
                self.init_req_opt = None;
                self.identify_client(now, out);
            }
        } else {
            if self.state == ConnectionState::Connected {
                if pkg.cmd == Cmd::HeartbeatRequest {
                    let mut resp = pkg.copy_headers_only();
                    resp.cmd = Cmd::HeartbeatResponse;
                    let (has, cid) = match &self.candidate {
                        Some(c) => (true, c.id),
                        None => (false, 0),
                    };
                    if has {
                        out.push(Action::Send { conn_id: cid, pkg: resp });
                    }
                } else if pkg.cmd == Cmd::HeartbeatResponse {
                } else {
                    let (has, cid) = match &self.candidate {
                        Some(c) => (true, c.id),
                        None => (false, 0),
                    };
                    if has {
                        self.registry.handle(pkg, cid, now, out);
                    }
                }
            }
        }
    }

    /// One tick of the periodic timer: poll whichever timeout the
    /// current state is waiting on, and report whether the driver is
    /// still alive.
    pub fn on_tick(&mut self, now: u64, out: &mut Vec<Action>) -> (r: Report)
        requires
            old(self).wf(),
        ensures
            final(self).wf(),
            same_config(*old(self), *final(self)),
            (old(self).state is Connecting && final(self).state is Connecting) ==> attempt_tries(
                *old(self),
            ) <= attempt_tries(*final(self)),
            final(self).state is Connected ==> final(self).attempt_opt is None,
            // Idle states ignore the tick.
            (old(self).state is Init || old(self).state is Closed) ==> (r == Report::Continue
                && *final(self) == *old(self) && final(out)@ == old(out)@),
            // Reconnecting: once the delay has passed, count one try
            // and run discovery, or quit with the budget spent.
            (old(self).state is Connecting && old(self).phase is Reconnecting) ==> ({
                let due = old(self).spec_conn_has_timeout(now);
                let tries = attempt_tries(*old(self));
                &&& (!due ==> (r == Report::Continue && *final(self) == *old(self) && final(out)@
                    == old(out)@))
                &&& ((due && tries < old(self).max_reconnect) ==> (r == Report::Continue
                    && *final(self) == (Driver {
                    attempt_opt: Some(Attempt { started: now, tries: (tries + 1) as u32 }),
                    phase: Phase::EndpointDiscovery,
                    tracker: (HealthTracker { state: HeartbeatStatus::Init, ..old(self).tracker }),
                    ..*old(self)
                }) && final(out)@ == old(out)@.push(
                    Action::Discover { last: old(self).last_endpoint },
                )))
                &&& ((due && tries >= old(self).max_reconnect) ==> (r == Report::Quit
                    && *final(self) == *old(self) && final(out)@ == old(out)@))
            }),
            // Authentication: a stale handshake request falls forward
            // to identification; the heartbeat always runs.
            (old(self).state is Connecting && old(self).phase is Authentication) ==> ({
                let timed = old(self).spec_has_init_req_timeout(now);
                let stepped = hb_step(old(self).tracker, now);
                let cid = candidate_id(*old(self));
                &&& r == Report::Continue
                &&& (!timed ==> (*final(self) == after_heartbeat(*old(self), now) && (
                heartbeat_probed(*old(self), now) ==> pushed_heartbeat_probe(
                    old(out)@,
                    final(out)@,
                    cid,
                )) && (!heartbeat_probed(*old(self), now) ==> final(out)@ == old(out)@)))
                &&& (timed ==> ({
                    &&& final(self).init_req_opt matches Some(req)
                    &&& req.started == now
                    &&& final(self).state is Connecting
                    &&& final(self).tracker == stepped.0
                    &&& final(self).phase == (if stepped.2 {
                        Phase::Reconnecting
                    } else {
                        Phase::Identification
                    })
                    &&& final(self).candidate == (if stepped.2 {
                        Option::<Connection>::None
                    } else {
                        old(self).candidate
                    })
                    &&& final(self).attempt_opt == old(self).attempt_opt
                    &&& final(self).registry == old(self).registry
                    &&& final(self).last_endpoint == old(self).last_endpoint
                    &&& final(self).last_operation_check == old(self).last_operation_check
                    &&& final(out)@.len() == old(out)@.len() + 1 + (if stepped.1 {
                        1 as int
                    } else {
                        0 as int
                    })
                    &&& final(out)@.take(old(out)@.len() as int) == old(out)@
                    &&& final(out)@[old(out)@.len() as int] matches Action::Send { conn_id, pkg }
                    &&& conn_id == cid
                    &&& pkg.cmd == Cmd::IdentifyClient
                    &&& pkg.correlation == req.correlation
                    &&& pkg.creds_opt is None
                    &&& pkg.payload@ == name_payload(old(self).connection_name)
                    &&& (stepped.1 ==> is_heartbeat_probe(final(out)@.last(), cid))
                }))
            }),
            // Identification: a stale handshake request is fatal;
            // otherwise the heartbeat runs.
            (old(self).state is Connecting && old(self).phase is Identification) ==> ({
                let timed = old(self).spec_has_init_req_timeout(now);
                let cid = candidate_id(*old(self));
                &&& (timed ==> (r == Report::Quit && *final(self) == *old(self) && final(out)@
                    == old(out)@))
                &&& (!timed ==> (r == Report::Continue && *final(self) == after_heartbeat(
                    *old(self),
                    now,
                ) && (heartbeat_probed(*old(self), now) ==> pushed_heartbeat_probe(
                    old(out)@,
                    final(out)@,
                    cid,
                )) && (!heartbeat_probed(*old(self), now) ==> final(out)@ == old(out)@)))
            }),
            // Discovery and establishment only keep the heartbeat
            // running; the collaborator owns their timeouts.
            (old(self).state is Connecting && (old(self).phase is EndpointDiscovery
                || old(self).phase is Establishing)) ==> (r == Report::Continue && *final(self)
                == after_heartbeat(*old(self), now) && (heartbeat_probed(*old(self), now)
                ==> pushed_heartbeat_probe(old(out)@, final(out)@, candidate_id(*old(self)))) && (
            !heartbeat_probed(*old(self), now) ==> final(out)@ == old(out)@)),
            // Connected: sweep the registry at its cadence, then run
            // the heartbeat.
            old(self).state is Connected ==> ({
                let checked = dur_since(now, old(self).last_operation_check)
                    >= old(self).operation_check_period;
                let probed = heartbeat_probed(*old(self), now);
                let cid = candidate_id(*old(self));
                &&& r == Report::Continue
                &&& *final(self) == after_heartbeat(
                    (Driver {
                        registry: final(self).registry,
                        last_operation_check: if checked {
                            now
                        } else {
                            old(self).last_operation_check
                        },
                        ..*old(self)
                    }),
                    now,
                )
                &&& (checked ==> final(self).registry.entries@ == sweep_entries(
                    old(self).registry.entries@,
                    cid,
                    now,
                    old(self).registry.operation_timeout,
                    old(self).registry.max_retries,
                ))
                &&& (!checked ==> final(self).registry == old(self).registry)
                &&& final(out)@.take(old(out)@.len() as int) == old(out)@
                &&& (checked ==> ({
                    let acts = sweep_actions(
                        old(self).registry.entries@,
                        cid,
                        now,
                        old(self).registry.operation_timeout,
                        old(self).registry.max_retries,
                    );
                    &&& final(out)@.len() == old(out)@.len() + acts.len() + (if probed {
                        1 as int
                    } else {
                        0 as int
                    })
                    &&& seq_action_eqv(
                        final(out)@.subrange(
                            old(out)@.len() as int,
                            (old(out)@.len() + acts.len()) as int,
                        ),
                        acts,
                    )
                    &&& (probed ==> is_heartbeat_probe(final(out)@.last(), cid))
                }))
                &&& (!checked ==> ((probed ==> pushed_heartbeat_probe(
                    old(out)@,
                    final(out)@,
                    cid,
                )) && (!probed ==> final(out)@ == old(out)@)))
            }),
    {
        if self.state == ConnectionState::Init || self.state == ConnectionState::Closed {
            return Report::Continue;
        }
        if self.state == ConnectionState::Connecting {
            if self.phase == Phase::Reconnecting {
                if self.conn_has_timeout(now) {
                    if self.start_new_attempt(now) {
                        self.discover(out);
                    } else {
                        return Report::Quit;
                    }
                }
                Report::Continue
            } else if self.phase == Phase::Authentication {
                let ghost pre_out = out@;
                if self.has_init_req_timeout(now) {
                    self.identify_client(now, out);
                }
                self.manage_heartbeat(now, out);
                proof {
                    if old(self).spec_has_init_req_timeout(now) {
                        assert(out@.take(pre_out.len() as int) =~= pre_out);
                    }
                }
                Report::Continue
            } else if self.phase == Phase::Identification {
                if self.has_init_req_timeout(now) {
                    return Report::Quit;
                }
                self.manage_heartbeat(now, out);
                Report::Continue
            } else {
                self.manage_heartbeat(now, out);
                Report::Continue
            }
        } else {
            let ghost pre_out = out@;
            let (has, cid) = match &self.candidate {
                Some(c) => (true, c.id),
                None => (false, 0),
            };
            if has && elapsed_ms(now, self.last_operation_check) >= self.operation_check_period {
                self.registry.check_and_retry(cid, now, out);
                self.last_operation_check = now;
            }
            let ghost mid_out = out@;
            self.manage_heartbeat(now, out);
            proof {
                assert(out@.take(pre_out.len() as int) =~= pre_out);
                if mid_out != out@ {
                    assert(out@ == mid_out.push(out@.last()));
                    assert(out@.subrange(pre_out.len() as int, mid_out.len() as int) =~= mid_out.skip(
                        pre_out.len() as int,
                    ));
                }
            }
            Report::Continue
        }
    }

    /// Send an ad-hoc package outside the exchange flow; accepted only
    /// while connected.
    pub fn on_send_pkg(&mut self, pkg: Pkg, out: &mut Vec<Action>)
        requires
            old(self).wf(),
        ensures
            final(self).wf(),
            *final(self) == *old(self),
            old(self).state is Connected ==> ({
                &&& old(self).candidate matches Some(cand)
                &&& final(out)@ == old(out)@.push(Action::Send { conn_id: cand.id, pkg: pkg })
            }),
            !(old(self).state is Connected) ==> final(out)@ == old(out)@,
    {
        if self.state == ConnectionState::Connected {
            if let Some(conn) = &self.candidate {
                let cid = conn.id;
                out.push(Action::Send { conn_id: cid, pkg });
            }
        }
    }
}

} // verus!

