//! The operation registry: outstanding exchanges keyed by correlation.
//!
//! An exchange is registered under a fresh correlation, issued on the
//! current connection or parked until one exists, re-issued while its
//! retry budget lasts, and failed with a timeout once it is spent.
//! Responses are matched by correlation; a package whose correlation is
//! unknown is dropped as a late response from a prior session.

use vstd::prelude::*;
use crate::messaging::{Action, action_eqv, seq_action_eqv};
use crate::package::{Pkg, fresh_id};
use crate::types::{Settings, dur_since, elapsed_ms};

verus! {

/// An application request paired with a waiting continuation.  The
/// exchange decides terminality: a response whose opcode byte equals
/// `terminal_cmd` ends it, any other response leaves it registered (a
/// multi-step exchange keeps its correlation until the terminal
/// response).
pub struct Exchange {
    /// The outbound package; its correlation is assigned at
    /// registration time.
    pub pkg: Pkg,
    /// The opcode byte of the terminal response.
    pub terminal_cmd: u8,
}

/// A registered exchange: its deadline-relative start, its retry
/// count, and the identity of the connection it was last issued on
/// (`None` while parked).
pub struct Entry {
    pub exchange: Exchange,
    pub started: u64,
    pub tries: u32,
    pub conn_id: Option<u128>,
}

impl Entry {
    /// The correlation the entry is keyed by.
    pub open spec fn correlation(self) -> u128 {
        self.exchange.pkg.correlation
    }
}

/// Pairwise distinct correlations.
pub open spec fn unique_correlations(s: Seq<Entry>) -> bool {
    forall|i: int, j: int|
        0 <= i < j < s.len() ==> (#[trigger] s[i]).correlation() != (#[trigger] s[j]).correlation()
}

/// Some entry is keyed by `c`.
pub open spec fn contains_corr(s: Seq<Entry>, c: u128) -> bool {
    exists|i: int| 0 <= i < s.len() && (#[trigger] s[i]).correlation() == c
}

/// The index of the entry keyed by `c` (unique under
/// [`unique_correlations`]).
pub open spec fn index_of_corr(s: Seq<Entry>, c: u128) -> int {
    choose|i: int| 0 <= i < s.len() && (#[trigger] s[i]).correlation() == c
}

proof fn lemma_index_of_corr_unique(s: Seq<Entry>, c: u128, i: int)
    requires
        unique_correlations(s),
        0 <= i < s.len(),
        s[i].correlation() == c,
    ensures
        contains_corr(s, c),
        index_of_corr(s, c) == i,
{
    assert(contains_corr(s, c));
    let j = index_of_corr(s, c);
    if j != i {
        if i < j {
            assert(s[i].correlation() != s[j].correlation());
        } else {
            assert(s[j].correlation() != s[i].correlation());
        }
    }
}

proof fn lemma_unique_remove(s: Seq<Entry>, k: int)
    requires
        unique_correlations(s),
        0 <= k < s.len(),
    ensures
        unique_correlations(s.remove(k)),
{
    s.remove_ensures(k);
    assert forall|i: int, j: int|
        0 <= i < j < s.remove(k).len() implies (#[trigger] s.remove(k)[i]).correlation() != (
    #[trigger] s.remove(k)[j]).correlation() by {
        let i0 = if i < k {
            i
        } else {
            i + 1
        };
        let j0 = if j < k {
            j
        } else {
            j + 1
        };
        assert(s.remove(k)[i] == s[i0]);
        assert(s.remove(k)[j] == s[j0]);
        assert(s[i0].correlation() != s[j0].correlation());
    }
}

/// The registry: the outstanding entries plus its two configured
/// parameters.
pub struct Registry {
    pub entries: Vec<Entry>,
    pub operation_timeout: u64,
    pub max_retries: u32,
}

/// The entry stored for `exchange` when registered as `corr`.
pub open spec fn new_entry(corr: u128, exchange: Exchange, conn_id: Option<u128>, now: u64) -> Entry {
    Entry {
        exchange: Exchange { pkg: (Pkg { correlation: corr, ..exchange.pkg }), ..exchange },
        started: now,
        tries: 0,
        conn_id: conn_id,
    }
}

/// How registration changes the entries: a fresh correlation is
/// appended; a colliding one replaces the entry it collides with.
pub open spec fn registered(
    pre: Registry,
    post: Registry,
    corr: u128,
    exchange: Exchange,
    conn_id: Option<u128>,
    now: u64,
) -> bool {
    &&& post.operation_timeout == pre.operation_timeout
    &&& post.max_retries == pre.max_retries
    &&& if contains_corr(pre.entries@, corr) {
        post.entries@ == pre.entries@.update(
            index_of_corr(pre.entries@, corr),
            new_entry(corr, exchange, conn_id, now),
        )
    } else {
        post.entries@ == pre.entries@.push(new_entry(corr, exchange, conn_id, now))
    }
}

/// The actions registration emits: the outbound package on the given
/// connection, or nothing while parked.
pub open spec fn registered_actions(
    pre: Seq<Action>,
    post: Seq<Action>,
    corr: u128,
    exchange: Exchange,
    conn_id: Option<u128>,
    now: u64,
) -> bool {
    match conn_id {
        Some(c) => {
            &&& post.len() == pre.len() + 1
            &&& post == pre.push(post.last())
            &&& action_eqv(
                post.last(),
                Action::Send { conn_id: c, pkg: new_entry(corr, exchange, conn_id, now).exchange.pkg },
            )
        },
        None => post == pre,
    }
}

/// How matching a response changes the registry and the action list:
/// an unknown correlation changes nothing; a known one is delivered,
/// and the entry is removed on the terminal opcode or re-armed on the
/// current connection otherwise.
pub open spec fn handled(
    pre: Registry,
    post: Registry,
    pkg: Pkg,
    conn_id: u128,
    now: u64,
    pre_out: Seq<Action>,
    post_out: Seq<Action>,
) -> bool {
    &&& post.operation_timeout == pre.operation_timeout
    &&& post.max_retries == pre.max_retries
    &&& !contains_corr(pre.entries@, pkg.correlation) ==> post.entries@ == pre.entries@ && post_out
        == pre_out
    &&& contains_corr(pre.entries@, pkg.correlation) ==> ({
        let i = index_of_corr(pre.entries@, pkg.correlation);
        let e = pre.entries@[i];
        &&& post_out == pre_out.push(Action::Deliver { correlation: pkg.correlation, pkg: pkg })
        &&& if pkg.cmd.spec_to_u8() == e.exchange.terminal_cmd {
            post.entries@ == pre.entries@.remove(i)
        } else {
            post.entries@ == pre.entries@.update(
                i,
                (Entry { started: now, conn_id: Some(conn_id), ..e }),
            )
        }
    })
}

impl Registry {
    /// Entries keyed by pairwise distinct correlations.
    pub open spec fn wf(self) -> bool {
        unique_correlations(self.entries@)
    }

    /// Some entry is keyed by `c`.
    pub open spec fn spec_contains(self, c: u128) -> bool {
        contains_corr(self.entries@, c)
    }

    pub fn new(setts: &Settings) -> (r: Registry)
        ensures
            r.entries@.len() == 0,
            r.operation_timeout == setts.operation_timeout,
            r.max_retries == setts.operation_retry,
            r.wf(),
    {
        Registry {
            entries: Vec::new(),
            operation_timeout: setts.operation_timeout,
            max_retries: setts.operation_retry,
        }
    }

    fn find(&self, corr: u128) -> (r: Option<usize>)
        ensures
            match r {
                Some(i) => i < self.entries@.len() && self.entries@[i as int].correlation() == corr,
                None => !contains_corr(self.entries@, corr),
            },
    {
        let mut i: usize = 0;
        while i < self.entries.len()
            invariant
                i <= self.entries@.len(),
                forall|k: int| 0 <= k < i ==> (#[trigger] self.entries@[k]).correlation() != corr,
            decreases self.entries@.len() - i,
        {
            if self.entries[i].exchange.pkg.correlation == corr {
                return Some(i);
            }
            i = i + 1;
        }
        None
    }

    /// Register `exchange` under the given correlation: record `now` as
    /// its start, zero tries, and issue its package on `conn_id` when
    /// one is given, else park it.
    pub fn register_with(
        &mut self,
        corr: u128,
        exchange: Exchange,
        conn_id: Option<u128>,
        now: u64,
        out: &mut Vec<Action>,
    )
        requires
            old(self).wf(),
        ensures
            final(self).wf(),
            registered(*old(self), *final(self), corr, exchange, conn_id, now),
            registered_actions(old(out)@, final(out)@, corr, exchange, conn_id, now),
    {
        let Exchange { pkg: mut pkg, terminal_cmd } = exchange;
        pkg.correlation = corr;
        if let Some(c) = conn_id {
            out.push(Action::Send { conn_id: c, pkg: pkg.clone() });
        }
        let entry = Entry { exchange: Exchange { pkg, terminal_cmd }, started: now, tries: 0, conn_id };
        proof {
            assert(entry == new_entry(corr, exchange, conn_id, now));
        }
        match self.find(corr) {
            Some(i) => {
                proof {
                    lemma_index_of_corr_unique(self.entries@, corr, i as int);
                }
                let slot = &mut self.entries[i];
                *slot = entry;
            },
            None => {
                self.entries.push(entry);
            },
        }
    }

    /// Register `exchange` under a freshly drawn correlation, returned
    /// to the caller.
    pub fn register(
        &mut self,
        exchange: Exchange,
        conn_id: Option<u128>,
        now: u64,
        out: &mut Vec<Action>,
    ) -> (corr: u128)
        requires
            old(self).wf(),
        ensures
            final(self).wf(),
            registered(*old(self), *final(self), corr, exchange, conn_id, now),
            registered_actions(old(out)@, final(out)@, corr, exchange, conn_id, now),
    {
        let corr = fresh_id();
        self.register_with(corr, exchange, conn_id, now, out);
        corr
    }

    /// Match a response by correlation.  An unknown correlation changes
    /// nothing.  A known one is delivered to its exchange; the terminal
    /// opcode removes the entry, any other response keeps it registered
    /// with a fresh deadline on the current connection.
    pub fn handle(&mut self, pkg: Pkg, conn_id: u128, now: u64, out: &mut Vec<Action>)
        requires
            old(self).wf(),
        ensures
            final(self).wf(),
            handled(*old(self), *final(self), pkg, conn_id, now, old(out)@, final(out)@),
    {
        let corr = pkg.correlation;
        match self.find(corr) {
            None => {
            },
            Some(i) => {
                proof {
                    lemma_index_of_corr_unique(self.entries@, corr, i as int);
                }
                let terminal_cmd = self.entries[i].exchange.terminal_cmd;
                if pkg.cmd.to_u8() == terminal_cmd {
                    proof {
                        lemma_unique_remove(self.entries@, i as int);
                    }
                    self.entries.remove(i);
                } else {
                    let slot = &mut self.entries[i];
                    slot.started = now;
                    slot.conn_id = Some(conn_id);
                }
                out.push(Action::Deliver { correlation: corr, pkg });
            },
        }
    }
}

/// What the sweep keeps of one entry at instant `now`: untouched while
/// its deadline has not passed; re-armed with one more try while the
/// retry budget lasts; dropped once the budget is spent.
pub open spec fn sweep_keep(e: Entry, conn: u128, now: u64, timeout: u64, max_retries: u32) -> Option<
    Entry,
> {
    if dur_since(now, e.started) < timeout {
        Some(e)
    } else if e.tries < max_retries {
        Some(Entry { started: now, tries: (e.tries + 1) as u32, conn_id: Some(conn), ..e })
    } else {
        None
    }
}

/// What the sweep emits for one entry: nothing, a re-issue of its
/// package, or the timeout failure of its exchange.
pub open spec fn sweep_emits(e: Entry, conn: u128, now: u64, timeout: u64, max_retries: u32) -> Seq<
    Action,
> {
    if dur_since(now, e.started) < timeout {
        Seq::<Action>::empty()
    } else if e.tries < max_retries {
        seq![Action::Send { conn_id: conn, pkg: e.exchange.pkg }]
    } else {
        seq![Action::OperationTimedOut { correlation: e.correlation() }]
    }
}

/// The entries left by a sweep, in order.
pub open spec fn sweep_entries(
    s: Seq<Entry>,
    conn: u128,
    now: u64,
    timeout: u64,
    max_retries: u32,
) -> Seq<Entry>
    decreases s.len(),
{
    if s.len() == 0 {
        Seq::<Entry>::empty()
    } else {
        sweep_entries(s.drop_last(), conn, now, timeout, max_retries) + (match sweep_keep(
            s.last(),
            conn,
            now,
            timeout,
            max_retries,
        ) {
            Some(e) => seq![e],
            None => Seq::<Entry>::empty(),
        })
    }
}

/// The actions a sweep emits, in entry order.
pub open spec fn sweep_actions(
    s: Seq<Entry>,
    conn: u128,
    now: u64,
    timeout: u64,
    max_retries: u32,
) -> Seq<Action>
    decreases s.len(),
{
    if s.len() == 0 {
        Seq::<Action>::empty()
    } else {
        sweep_actions(s.drop_last(), conn, now, timeout, max_retries) + sweep_emits(
            s.last(),
            conn,
            now,
            timeout,
            max_retries,
        )
    }
}

/// A parked entry re-issued on connection `conn` at instant `now`; an
/// already issued entry is untouched.
pub open spec fn reissue_entry(e: Entry, conn: u128, now: u64) -> Entry {
    if e.conn_id is None {
        Entry { started: now, conn_id: Some(conn), ..e }
    } else {
        e
    }
}

/// What re-issuing emits for one entry.
pub open spec fn reissue_emits(e: Entry, conn: u128) -> Seq<Action> {
    if e.conn_id is None {
        seq![Action::Send { conn_id: conn, pkg: e.exchange.pkg }]
    } else {
        Seq::<Action>::empty()
    }
}

/// The actions re-issuing emits, in entry order.
pub open spec fn reissue_actions(s: Seq<Entry>, conn: u128, now: u64) -> Seq<Action>
    decreases s.len(),
{
    if s.len() == 0 {
        Seq::<Action>::empty()
    } else {
        reissue_actions(s.drop_last(), conn, now) + reissue_emits(s.last(), conn)
    }
}

proof fn lemma_take_step<A>(s: Seq<A>, j: int)
    requires
        0 <= j < s.len(),
    ensures
        s.take(j + 1).drop_last() == s.take(j),
        s.take(j + 1).last() == s[j],
        s.skip(j) == seq![s[j]] + s.skip(j + 1),
{
    assert(s.take(j + 1).drop_last() =~= s.take(j));
    assert(s.skip(j) =~= seq![s[j]] + s.skip(j + 1));
}

proof fn lemma_seq_action_eqv_push(a: Seq<Action>, b: Seq<Action>, x: Action, y: Action)
    requires
        seq_action_eqv(a, b),
        action_eqv(x, y),
    ensures
        seq_action_eqv(a.push(x), b + seq![y]),
{
    assert(b + seq![y] =~= b.push(y));
    assert forall|i: int| 0 <= i < a.push(x).len() implies action_eqv(
        #[trigger] a.push(x)[i],
        (b + seq![y])[i],
    ) by {
        if i < a.len() {
            assert(a.push(x)[i] == a[i]);
            assert((b + seq![y])[i] == b[i]);
        }
    }
}

proof fn lemma_seq_action_eqv_same(a: Seq<Action>, b: Seq<Action>)
    requires
        seq_action_eqv(a, b),
    ensures
        seq_action_eqv(a, b + Seq::<Action>::empty()),
{
    assert(b + Seq::<Action>::empty() =~= b);
}

impl Registry {
    /// Sweep the registry at instant `now` against connection
    /// `conn_id`: every entry whose deadline has passed is re-issued
    /// and re-armed while its retry budget lasts, and removed with a
    /// timeout failure once the budget is spent.
    pub fn check_and_retry(&mut self, conn_id: u128, now: u64, out: &mut Vec<Action>)
        requires
            old(self).wf(),
        ensures
            final(self).wf(),
            final(self).operation_timeout == old(self).operation_timeout,
            final(self).max_retries == old(self).max_retries,
            final(self).entries@ == sweep_entries(
                old(self).entries@,
                conn_id,
                now,
                old(self).operation_timeout,
                old(self).max_retries,
            ),
            final(out)@.len() >= old(out)@.len(),
            final(out)@.take(old(out)@.len() as int) == old(out)@,
            seq_action_eqv(
                final(out)@.skip(old(out)@.len() as int),
                sweep_actions(
                    old(self).entries@,
                    conn_id,
                    now,
                    old(self).operation_timeout,
                    old(self).max_retries,
                ),
            ),
    {
        let ghost orig = self.entries@;
        let ghost base = out@;
        let timeout = self.operation_timeout;
        let max_retries = self.max_retries;
        let mut i: usize = 0;
        let ghost mut j: int = 0;
        while i < self.entries.len()
            invariant
                self.operation_timeout == timeout,
                self.max_retries == max_retries,
                0 <= j <= orig.len(),
                self.wf(),
                i as int == sweep_entries(orig.take(j), conn_id, now, timeout, max_retries).len(),
                self.entries@ == sweep_entries(orig.take(j), conn_id, now, timeout, max_retries)
                    + orig.skip(j),
                out@.len() >= base.len(),
                out@.take(base.len() as int) == base,
                seq_action_eqv(
                    out@.skip(base.len() as int),
                    sweep_actions(orig.take(j), conn_id, now, timeout, max_retries),
                ),
            decreases orig.len() - j,
        {
            let ghost pre_entries = self.entries@;
            let ghost pre_out = out@;
            proof {
                assert(j < orig.len());
                lemma_take_step(orig, j);
                assert(self.entries@[i as int] == orig[j]);
            }
            let started = self.entries[i].started;
            let tries = self.entries[i].tries;
            if elapsed_ms(now, started) >= timeout {
                if tries < max_retries {
                    let p = self.entries[i].exchange.pkg.clone();
                    let slot = &mut self.entries[i];
                    slot.started = now;
                    slot.tries = tries + 1;
                    slot.conn_id = Some(conn_id);
                    out.push(Action::Send { conn_id, pkg: p });
                    i = i + 1;
                    proof {
                        let upd = Entry {
                            started: now,
                            tries: (orig[j].tries + 1) as u32,
                            conn_id: Some(conn_id),
                            ..orig[j]
                        };
                        assert(sweep_keep(orig[j], conn_id, now, timeout, max_retries) == Some(upd));
                        assert(self.entries@ == pre_entries.update(i as int - 1, upd));
                        assert(self.entries@ =~= sweep_entries(
                            orig.take(j + 1),
                            conn_id,
                            now,
                            timeout,
                            max_retries,
                        ) + orig.skip(j + 1));
                        lemma_seq_action_eqv_push(
                            pre_out.skip(base.len() as int),
                            sweep_actions(orig.take(j), conn_id, now, timeout, max_retries),
                            out@.last(),
                            Action::Send { conn_id, pkg: orig[j].exchange.pkg },
                        );
                        assert(out@.skip(base.len() as int) =~= pre_out.skip(
                            base.len() as int,
                        ).push(out@.last()));
                        assert(out@.take(base.len() as int) =~= base);
                    }
                } else {
                    proof {
                        lemma_unique_remove(self.entries@, i as int);
                    }
                    let e = self.entries.remove(i);
                    out.push(
                        Action::OperationTimedOut { correlation: e.exchange.pkg.correlation },
                    );
                    proof {
                        assert(self.entries@ =~= sweep_entries(
                            orig.take(j + 1),
                            conn_id,
                            now,
                            timeout,
                            max_retries,
                        ) + orig.skip(j + 1));
                        lemma_seq_action_eqv_push(
                            pre_out.skip(base.len() as int),
                            sweep_actions(orig.take(j), conn_id, now, timeout, max_retries),
                            out@.last(),
                            Action::OperationTimedOut { correlation: orig[j].correlation() },
                        );
                        assert(out@.skip(base.len() as int) =~= pre_out.skip(
                            base.len() as int,
                        ).push(out@.last()));
                        assert(out@.take(base.len() as int) =~= base);
                    }
                }
            } else {
                i = i + 1;
                proof {
                    assert(self.entries@ =~= sweep_entries(
                        orig.take(j + 1),
                        conn_id,
                        now,
                        timeout,
                        max_retries,
                    ) + orig.skip(j + 1));
                    lemma_seq_action_eqv_same(
                        out@.skip(base.len() as int),
                        sweep_actions(orig.take(j), conn_id, now, timeout, max_retries),
                    );
                }
            }
            proof {
                j = j + 1;
            }
        }
        proof {
            assert(orig.take(j) =~= orig);
            assert(orig.skip(j) =~= Seq::<Entry>::empty());
            assert(self.entries@ =~= sweep_entries(orig, conn_id, now, timeout, max_retries));
        }
    }

    /// Re-issue every parked entry on the connection `conn_id`,
    /// preserving correlations; used when the driver re-enters the
    /// connected state.
    pub fn reissue_parked(&mut self, conn_id: u128, now: u64, out: &mut Vec<Action>)
        requires
            old(self).wf(),
        ensures
            final(self).wf(),
            final(self).operation_timeout == old(self).operation_timeout,
            final(self).max_retries == old(self).max_retries,
            final(self).entries@.len() == old(self).entries@.len(),
            forall|k: int|
                0 <= k < old(self).entries@.len() ==> final(self).entries@[k] == reissue_entry(
                    #[trigger] old(self).entries@[k],
                    conn_id,
                    now,
                ),
            final(out)@.len() >= old(out)@.len(),
            final(out)@.take(old(out)@.len() as int) == old(out)@,
            seq_action_eqv(
                final(out)@.skip(old(out)@.len() as int),
                reissue_actions(old(self).entries@, conn_id, now),
            ),
    {
        let ghost orig = self.entries@;
        let ghost base = out@;
        let mut i: usize = 0;
        while i < self.entries.len()
            invariant
                self.operation_timeout == old(self).operation_timeout,
                self.max_retries == old(self).max_retries,
                i <= orig.len(),
                self.entries@.len() == orig.len(),
                forall|k: int|
                    0 <= k < i ==> self.entries@[k] == reissue_entry(
                        #[trigger] orig[k],
                        conn_id,
                        now,
                    ),
                forall|k: int| i <= k < orig.len() ==> #[trigger] self.entries@[k] == orig[k],
                out@.len() >= base.len(),
                out@.take(base.len() as int) == base,
                seq_action_eqv(
                    out@.skip(base.len() as int),
                    reissue_actions(orig.take(i as int), conn_id, now),
                ),
            decreases orig.len() - i,
        {
            let ghost pre_out = out@;
            proof {
                lemma_take_step(orig, i as int);
            }
            let parked = self.entries[i].conn_id.is_none();
            if parked {
                let p = self.entries[i].exchange.pkg.clone();
                let slot = &mut self.entries[i];
                slot.started = now;
                slot.conn_id = Some(conn_id);
                out.push(Action::Send { conn_id, pkg: p });
                proof {
                    lemma_seq_action_eqv_push(
                        pre_out.skip(base.len() as int),
                        reissue_actions(orig.take(i as int), conn_id, now),
                        out@.last(),
                        Action::Send { conn_id, pkg: orig[i as int].exchange.pkg },
                    );
                    assert(out@.skip(base.len() as int) =~= pre_out.skip(base.len() as int).push(
                        out@.last(),
                    ));
                    assert(out@.take(base.len() as int) =~= base);
                }
            } else {
                proof {
                    lemma_seq_action_eqv_same(
                        out@.skip(base.len() as int),
                        reissue_actions(orig.take(i as int), conn_id, now),
                    );
                }
            }
            i = i + 1;
        }
        proof {
            assert(orig.take(orig.len() as int) =~= orig);
            assert forall|a: int, b: int|
                0 <= a < b < self.entries@.len() implies (#[trigger] self.entries@[a]).correlation()
                != (#[trigger] self.entries@[b]).correlation() by {
                assert(self.entries@[a].correlation() == orig[a].correlation());
                assert(self.entries@[b].correlation() == orig[b].correlation());
            }
        }
    }
}

} // verus!
