//! Plain-value configuration and collaborator data: credentials,
//! endpoints, retry bounds, settings, and the millisecond time model.
//!
//! All wall-clock instants are carried as milliseconds on a monotonic
//! scale chosen by the host; the driver only ever compares durations.

use vstd::prelude::*;

verus! {

/// Elapsed milliseconds between an earlier instant and `now`; zero when
/// the clock appears to have gone backwards.
pub open spec fn dur_since(now: u64, earlier: u64) -> u64 {
    if now >= earlier {
        (now - earlier) as u64
    } else {
        0
    }
}

/// Executable counterpart of [`dur_since`].
pub fn elapsed_ms(now: u64, earlier: u64) -> (r: u64)
    ensures
        r == dur_since(now, earlier),
{
    if now >= earlier {
        now - earlier
    } else {
        0
    }
}

/// Credentials for the optional authentication handshake step.
pub struct Credentials {
    pub login: String,
    pub password: String,
}

impl Clone for Credentials {
    fn clone(&self) -> (r: Credentials)
        ensures
            r == *self,
    {
        Credentials { login: self.login.clone(), password: self.password.clone() }
    }
}

/// A bound on reconnection attempts: a count, or no bound at all.
#[derive(Copy, Clone, PartialEq, Eq, Structural, Debug)]
pub enum Retry {
    Limited(u32),
    Infinite,
}

impl Retry {
    /// The bound as a `u32`; an unbounded policy saturates at `u32::MAX`.
    pub open spec fn spec_to_u32(self) -> u32 {
        match self {
            Retry::Limited(n) => n,
            Retry::Infinite => u32::MAX,
        }
    }

    pub fn to_u32(&self) -> (r: u32)
        ensures
            r == self.spec_to_u32(),
    {
        match *self {
            Retry::Limited(n) => n,
            Retry::Infinite => u32::MAX,
        }
    }
}

/// A network address returned by discovery: an IPv4 host and a port.
#[derive(Copy, Clone, PartialEq, Eq, Structural, Debug)]
pub struct Endpoint {
    pub host: u32,
    pub port: u16,
}

/// Configuration recognized by the driver.  Durations are milliseconds.
pub struct Settings {
    /// Sent in the `IdentifyClient` payload when present.
    pub connection_name: Option<String>,
    /// When present, the handshake includes an `Authenticate` step.
    pub default_user: Option<Credentials>,
    /// Quiet time before probing the peer with a heartbeat request.
    pub heartbeat_delay: u64,
    /// Silence after a probe before declaring the peer dead.
    pub heartbeat_timeout: u64,
    /// Per-exchange response deadline.
    pub operation_timeout: u64,
    /// Cadence of the registry sweep while connected.
    pub operation_check_period: u64,
    /// Upper bound on reconnection tries.
    pub connection_retry: Retry,
    /// Retry budget of a registered exchange after a timeout.
    pub operation_retry: u32,
}

impl Default for Settings {
    fn default() -> (r: Settings)
        ensures
            r.connection_name is None,
            r.default_user is None,
            r.heartbeat_delay == 750,
            r.heartbeat_timeout == 1500,
            r.operation_timeout == 7000,
            r.operation_check_period == 1000,
            r.connection_retry == Retry::Limited(3),
            r.operation_retry == 3,
    {
        Settings {
            connection_name: None,
            default_user: None,
            heartbeat_delay: 750,
            heartbeat_timeout: 1500,
            operation_timeout: 7000,
            operation_check_period: 1000,
            connection_retry: Retry::Limited(3),
            operation_retry: 3,
        }
    }
}

} // verus!
