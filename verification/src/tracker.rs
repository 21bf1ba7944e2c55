//! Liveness tracking for the candidate connection.
//!
//! The tracker counts inbound packages as a cheap liveness witness and
//! walks a three-state probe machine: quiet for `heartbeat_delay`
//! milliseconds, it emits one `HeartbeatRequest`; silent for another
//! `heartbeat_timeout` milliseconds after the probe, it reports failure.

use vstd::prelude::*;
use crate::messaging::{Action, pushed_heartbeat_probe};
use crate::package::Pkg;
use crate::types::{Settings, dur_since, elapsed_ms};

verus! {

/// The probe machine's state: each timed state records the package
/// count it observed and the instant it was entered.
#[derive(Copy, Clone, PartialEq, Eq, Structural, Debug)]
pub enum HeartbeatStatus {
    Init,
    Delay(u32, u64),
    Timeout(u32, u64),
}

/// The verdict of one heartbeat evaluation.
#[derive(Copy, Clone, PartialEq, Eq, Structural, Debug)]
pub enum Heartbeat {
    Valid,
    Failure,
}

/// The health tracker: a monotonic package counter (wrapping at the
/// type bound) plus the probe machine and its two thresholds.
#[derive(Copy, Clone)]
pub struct HealthTracker {
    pub pkg_num: u32,
    pub state: HeartbeatStatus,
    pub heartbeat_delay: u64,
    pub heartbeat_timeout: u64,
}

/// The package counter after one more inbound package.
pub open spec fn next_pkg_num(n: u32) -> u32 {
    if n == u32::MAX {
        0
    } else {
        (n + 1) as u32
    }
}

/// One heartbeat evaluation at instant `now`: the tracker afterwards,
/// whether a probe is emitted, and whether the peer is declared dead.
pub open spec fn hb_step(t: HealthTracker, now: u64) -> (HealthTracker, bool, bool) {
    match t.state {
        HeartbeatStatus::Init => (
            HealthTracker { state: HeartbeatStatus::Delay(t.pkg_num, now), ..t },
            false,
            false,
        ),
        HeartbeatStatus::Delay(num, start) => {
            if t.pkg_num != num {
                (HealthTracker { state: HeartbeatStatus::Delay(t.pkg_num, now), ..t }, false, false)
            } else if dur_since(now, start) >= t.heartbeat_delay {
                (HealthTracker { state: HeartbeatStatus::Timeout(t.pkg_num, now), ..t }, true, false)
            } else {
                (t, false, false)
            }
        },
        HeartbeatStatus::Timeout(num, start) => {
            if t.pkg_num != num {
                (HealthTracker { state: HeartbeatStatus::Delay(t.pkg_num, now), ..t }, false, false)
            } else if dur_since(now, start) >= t.heartbeat_timeout {
                (t, false, true)
            } else {
                (t, false, false)
            }
        },
    }
}

impl HealthTracker {
    pub fn new(setts: &Settings) -> (r: HealthTracker)
        ensures
            r.pkg_num == 0,
            r.state == HeartbeatStatus::Init,
            r.heartbeat_delay == setts.heartbeat_delay,
            r.heartbeat_timeout == setts.heartbeat_timeout,
    {
        HealthTracker {
            pkg_num: 0,
            state: HeartbeatStatus::Init,
            heartbeat_delay: setts.heartbeat_delay,
            heartbeat_timeout: setts.heartbeat_timeout,
        }
    }

    /// Record one inbound package, before heartbeat handling sees it.
    pub fn incr_pkg_num(&mut self)
        ensures
            *final(self) == (HealthTracker {
                pkg_num: next_pkg_num(old(self).pkg_num),
                ..*old(self)
            }),
    {
        self.pkg_num = if self.pkg_num == u32::MAX {
            0
        } else {
            self.pkg_num + 1
        };
    }

    /// Forget any running probe; the next evaluation starts a new delay.
    pub fn reset(&mut self)
        ensures
            *final(self) == (HealthTracker { state: HeartbeatStatus::Init, ..*old(self) }),
    {
        self.state = HeartbeatStatus::Init;
    }

    /// One evaluation against the connection `conn_id`, exactly
    /// [`hb_step`]: a probe is appended to `out` when the quiet delay
    /// has elapsed, and `Failure` is returned when the probe went
    /// unanswered for the timeout.
    pub fn manage_heartbeat(&mut self, conn_id: u128, now: u64, out: &mut Vec<Action>) -> (r:
        Heartbeat)
        ensures
            ({
                let (t2, send, fail) = hb_step(*old(self), now);
                &&& *final(self) == t2
                &&& r == (if fail {
                    Heartbeat::Failure
                } else {
                    Heartbeat::Valid
                })
                &&& send ==> pushed_heartbeat_probe(old(out)@, final(out)@, conn_id)
                &&& !send ==> final(out)@ == old(out)@
            }),
    {
        match self.state {
            HeartbeatStatus::Init => {
                self.state = HeartbeatStatus::Delay(self.pkg_num, now);
                Heartbeat::Valid
            },
            HeartbeatStatus::Delay(num, start) => {
                if self.pkg_num != num {
                    self.state = HeartbeatStatus::Delay(self.pkg_num, now);
                } else {
                    if elapsed_ms(now, start) >= self.heartbeat_delay {
                        self.state = HeartbeatStatus::Timeout(self.pkg_num, now);
                        out.push(Action::Send { conn_id, pkg: Pkg::heartbeat_request() });
                    }
                }
                Heartbeat::Valid
            },
            HeartbeatStatus::Timeout(num, start) => {
                if self.pkg_num != num {
                    self.state = HeartbeatStatus::Delay(self.pkg_num, now);
                    Heartbeat::Valid
                } else {
                    if elapsed_ms(now, start) >= self.heartbeat_timeout {
                        Heartbeat::Failure
                    } else {
                        Heartbeat::Valid
                    }
                }
            },
        }
    }
}

/// A run of heartbeat evaluations at the given instants, stopping at
/// the first failure: the tracker afterwards, how many probes were
/// emitted, and whether failure was reached.
pub open spec fn hb_run(t: HealthTracker, times: Seq<u64>) -> (HealthTracker, nat, bool)
    decreases times.len(),
{
    if times.len() == 0 {
        (t, 0 as nat, false)
    } else {
        let stepped = hb_step(t, times[0]);
        let sent: nat = if stepped.1 {
            1 as nat
        } else {
            0 as nat
        };
        if stepped.2 {
            (stepped.0, sent, true)
        } else {
            let rest = hb_run(stepped.0, times.drop_first());
            (rest.0, (sent + rest.1) as nat, rest.2)
        }
    }
}

/// The instants of a tick stream observed after instant `prev`: at
/// least one tick, each at most `period` after the one before it, the
/// first at most `period` after `prev`.
pub open spec fn tick_times_ok(prev: u64, times: Seq<u64>, period: u64) -> bool {
    &&& times.len() > 0
    &&& prev <= times[0] <= prev + period
    &&& forall|i: int|
        0 <= i < times.len() - 1 ==> #[trigger] times[i] <= times[i + 1] <= times[i] + period
}

proof fn lemma_timeout_phase(t: HealthTracker, probed: u64, prev: u64, period: u64, times: Seq<u64>)
    requires
        t.state == HeartbeatStatus::Timeout(t.pkg_num, probed),
        tick_times_ok(prev, times, period),
        times.last() >= probed + t.heartbeat_timeout,
    ensures
        hb_run(t, times) == (t, 0 as nat, true),
    decreases times.len(),
{
    let t0 = times[0];
    if dur_since(t0, probed) >= t.heartbeat_timeout {
        assert(hb_run(t, times) == (t, 0 as nat, true));
    } else {
        if times.len() == 1 {
            assert(times.last() == t0);
            assert(false);
        }
        assert(tick_times_ok(t0, times.drop_first(), period)) by {
            assert(times.drop_first()[0] == times[1]);
            assert(forall|i: int|
                0 <= i < times.drop_first().len() - 1 ==> #[trigger] times.drop_first()[i]
                    <= times.drop_first()[i + 1] <= times.drop_first()[i] + period) by {
                assert(forall|i: int|
                    0 <= i < times.len() - 1 ==> #[trigger] times[i] <= times[i + 1] <= times[i]
                        + period);
            }
        }
        assert(times.drop_first().last() == times.last());
        lemma_timeout_phase(t, probed, t0, period, times.drop_first());
    }
}

proof fn lemma_delay_phase(t: HealthTracker, since: u64, prev: u64, period: u64, times: Seq<u64>)
    requires
        t.heartbeat_timeout >= 1,
        t.state == HeartbeatStatus::Delay(t.pkg_num, since),
        tick_times_ok(prev, times, period),
        times.last() >= (if prev >= since + t.heartbeat_delay {
            prev as int
        } else {
            since + t.heartbeat_delay
        }) + period + t.heartbeat_timeout,
    ensures
        hb_run(t, times).1 == 1,
        hb_run(t, times).2,
    decreases times.len(),
{
    let t0 = times[0];
    if dur_since(t0, since) >= t.heartbeat_delay {
        // The probe goes out at this tick; the timeout phase follows.
        let t1 = hb_step(t, t0).0;
        assert(t1.state == HeartbeatStatus::Timeout(t.pkg_num, t0));
        if times.len() == 1 {
            assert(times.last() == t0);
            assert(false);
        }
        assert(tick_times_ok(t0, times.drop_first(), period)) by {
            assert(times.drop_first()[0] == times[1]);
            assert(forall|i: int|
                0 <= i < times.drop_first().len() - 1 ==> #[trigger] times.drop_first()[i]
                    <= times.drop_first()[i + 1] <= times.drop_first()[i] + period) by {
                assert(forall|i: int|
                    0 <= i < times.len() - 1 ==> #[trigger] times[i] <= times[i + 1] <= times[i]
                        + period);
            }
        }
        assert(times.drop_first().last() == times.last());
        lemma_timeout_phase(t1, t0, t0, period, times.drop_first());
    } else {
        // Still quiet and within the delay: the tracker is unchanged.
        assert(hb_step(t, t0) == (t, false, false));
        if times.len() == 1 {
            assert(times.last() == t0);
            assert(false);
        }
        assert(tick_times_ok(t0, times.drop_first(), period)) by {
            assert(times.drop_first()[0] == times[1]);
            assert(forall|i: int|
                0 <= i < times.drop_first().len() - 1 ==> #[trigger] times.drop_first()[i]
                    <= times.drop_first()[i + 1] <= times.drop_first()[i] + period) by {
                assert(forall|i: int|
                    0 <= i < times.len() - 1 ==> #[trigger] times[i] <= times[i + 1] <= times[i]
                        + period);
            }
        }
        assert(times.drop_first().last() == times.last());
        lemma_delay_phase(t, since, t0, period, times.drop_first());
    }
}

/// With no inbound traffic, any tick stream whose gaps are at most
/// `period` drives the tracker to exactly one emitted probe and then a
/// declared failure, within `heartbeat_delay + heartbeat_timeout + 2 *
/// period` of the instant `prev` at which observation starts.  The
/// tracker may start fresh (`Init`) or already waiting (`Delay`) on its
/// current package count since some instant no later than `prev`.
pub proof fn lemma_silent_peer_fails(
    t: HealthTracker,
    since: u64,
    prev: u64,
    period: u64,
    times: Seq<u64>,
)
    requires
        t.heartbeat_timeout >= 1,
        t.state == HeartbeatStatus::Init || t.state == HeartbeatStatus::Delay(t.pkg_num, since),
        t.state matches HeartbeatStatus::Delay(_, _) ==> since <= prev,
        tick_times_ok(prev, times, period),
        times.last() >= prev + t.heartbeat_delay + t.heartbeat_timeout + 2 * period,
    ensures
        hb_run(t, times).1 == 1,
        hb_run(t, times).2,
{
    let t0 = times[0];
    if t.state matches HeartbeatStatus::Delay(_, _) {
        lemma_delay_phase(t, since, prev, period, times);
    } else {
        // The first tick only arms the delay.
        let t1 = hb_step(t, t0).0;
        assert(t1.state == HeartbeatStatus::Delay(t.pkg_num, t0));
        if times.len() == 1 {
            assert(times.last() == t0);
            assert(false);
        }
        assert(tick_times_ok(t0, times.drop_first(), period)) by {
            assert(times.drop_first()[0] == times[1]);
            assert(forall|i: int|
                0 <= i < times.drop_first().len() - 1 ==> #[trigger] times.drop_first()[i]
                    <= times.drop_first()[i + 1] <= times.drop_first()[i] + period) by {
                assert(forall|i: int|
                    0 <= i < times.len() - 1 ==> #[trigger] times[i] <= times[i + 1] <= times[i]
                        + period);
            }
        }
        assert(times.drop_first().last() == times.last());
        lemma_delay_phase(t1, t0, t0, period, times.drop_first());
    }
}

} // verus!
