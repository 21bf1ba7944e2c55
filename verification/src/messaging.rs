//! Actions the driver hands back to its host.
//!
//! The driver is a single-threaded state machine: every handler appends
//! the outward work it decides on — discovery runs, socket openings,
//! package transmissions, exchange completions — to an action list that
//! the host performs in order.

use vstd::prelude::*;
use crate::command::Cmd;
use crate::package::{Pkg, pkg_eqv};
use crate::types::Endpoint;

verus! {

/// One unit of outward work decided by the driver.
pub enum Action {
    /// Run endpoint discovery, informed by the last endpoint used, and
    /// feed the result back through `on_establish`.
    Discover { last: Option<Endpoint> },
    /// Open a stream to `endpoint` under the connection identity
    /// `conn_id`; the transport later reports `Established` or
    /// `ConnectionClosed` for that identity.
    Connect { conn_id: u128, endpoint: Endpoint },
    /// Transmit `pkg` on the connection with identity `conn_id`,
    /// preserving enqueue order per connection.
    Send { conn_id: u128, pkg: Pkg },
    /// Hand a response package to the exchange registered under
    /// `correlation`.
    Deliver { correlation: u128, pkg: Pkg },
    /// Fail the exchange registered under `correlation`: its retry
    /// budget is spent and its deadline has passed.
    OperationTimedOut { correlation: u128 },
}

/// Equivalence of actions up to package equivalence.
pub open spec fn action_eqv(a: Action, b: Action) -> bool {
    match (a, b) {
        (Action::Send { conn_id: c1, pkg: p1 }, Action::Send { conn_id: c2, pkg: p2 }) => c1 == c2
            && pkg_eqv(p1, p2),
        (
            Action::Deliver { correlation: k1, pkg: p1 },
            Action::Deliver { correlation: k2, pkg: p2 },
        ) => k1 == k2 && pkg_eqv(p1, p2),
        _ => a == b,
    }
}

/// Pointwise equivalence of action sequences.
pub open spec fn seq_action_eqv(a: Seq<Action>, b: Seq<Action>) -> bool {
    &&& a.len() == b.len()
    &&& forall|i: int| 0 <= i < a.len() ==> action_eqv(#[trigger] a[i], #[trigger] b[i])
}

/// A heartbeat probe on connection `conn`: a `HeartbeatRequest` with no
/// credentials and an empty payload (its correlation is freshly drawn).
pub open spec fn is_heartbeat_probe(a: Action, conn: u128) -> bool {
    a matches Action::Send { conn_id, pkg } && conn_id == conn && pkg.cmd == Cmd::HeartbeatRequest
        && pkg.creds_opt is None && pkg.payload@ == Seq::<u8>::empty()
}

/// `post` is `pre` with exactly one action appended: a heartbeat probe
/// on connection `conn`.
pub open spec fn pushed_heartbeat_probe(pre: Seq<Action>, post: Seq<Action>, conn: u128) -> bool {
    &&& post.len() == pre.len() + 1
    &&& post == pre.push(post.last())
    &&& is_heartbeat_probe(post.last(), conn)
}

} // verus!
