//! The laws of the pool coordinator, stated and proved over the ghost
//! model `PoolView`: the capacity invariants, LIFO reuse, replenishment
//! liveness, retry-until-success, broken-connection eviction, single-slot
//! exclusion and timeout accuracy.

use crate::pool::Conn;
use crate::pool::PoolConfig;
use crate::pool::PoolView;
use crate::pool::spec_deadline;
use vstd::prelude::*;

verus! {

/// The capacity invariants: in every well-formed state, live plus pending
/// connections never exceed `max_size`, and the idle registry never holds
/// more entries than there are live connections.
pub proof fn lemma_capacity_invariant<C>(v: PoolView<C>)
    requires
        v.wf(),
    ensures
        v.num_conns + v.pending_conns <= v.max_size,
        v.idle.len() <= v.num_conns,
{
}

/// Every transition of the coordinator preserves the capacity invariants,
/// each under exactly the protocol conditions in which the coordinator
/// performs it: a connect report comes from a task holding a pending
/// reservation, a cancellation from a registered waiter, and a release
/// from a guard whose slot counts as live while being absent from the
/// registry.
pub proof fn lemma_transitions_preserve_invariants<C>(
    v: PoolView<C>,
    raw: C,
    err: Seq<char>,
    slot: Conn<C>,
    now_ms: u64,
)
    requires
        v.wf(),
    ensures
        v.add_connection().wf(),
        v.establish().wf(),
        v.pending_conns >= 1 && v.next_id < u64::MAX ==> v.connect_ok(raw, now_ms).wf(),
        v.connect_err(err).wf(),
        v.idle.len() > 0 ==> v.checkout().wf(),
        v.waiters < u32::MAX ==> v.register_waiter().wf(),
        v.waiters >= 1 ==> v.cancel_waiter().wf(),
        v.num_conns >= 1 && v.idle.len() < v.num_conns ==> v.discard().wf(),
        v.idle.len() < v.num_conns ==> v.give_back(slot, now_ms).wf(),
{
}

/// LIFO reuse: giving a healthy slot back and acquiring again with no
/// intervening push or pop yields that very slot — the registry pops the
/// most recently returned entry — and leaves the registry as it was
/// before the pair of calls.
pub proof fn lemma_lifo_reuse<C>(v: PoolView<C>, slot: Conn<C>, now_ms: u64)
    requires
        v.wf(),
        v.idle.len() < v.num_conns,
    ensures
        v.give_back(slot, now_ms).idle.len() > 0,
        v.give_back(slot, now_ms).checked_out_conn() == slot,
        v.give_back(slot, now_ms).checkout().idle =~= v.idle,
{
    assert(v.give_back(slot, now_ms).checkout().idle =~= v.idle);
}

/// The state after a sequence of successful connect reports, one per raw
/// connection value, all at the same instant.
pub open spec fn connect_ok_seq<C>(v: PoolView<C>, raws: Seq<C>, now_ms: u64) -> PoolView<C>
    decreases raws.len(),
{
    if raws.len() == 0 {
        v
    } else {
        connect_ok_seq(v.connect_ok(raws.first(), now_ms), raws.drop_first(), now_ms)
    }
}

/// Replenishment grows the registry: as long as the pending reservations
/// cover them, successful connect reports each add exactly one idle slot
/// and move one reservation to the live count, and any success clears the
/// recorded connect error.
pub proof fn lemma_replenishment_grows_registry<C>(v: PoolView<C>, raws: Seq<C>, now_ms: u64)
    requires
        v.wf(),
        raws.len() <= v.pending_conns,
        v.next_id + raws.len() <= u64::MAX,
    ensures
        connect_ok_seq(v, raws, now_ms).wf(),
        connect_ok_seq(v, raws, now_ms).idle.len() == v.idle.len() + raws.len(),
        connect_ok_seq(v, raws, now_ms).num_conns == v.num_conns + raws.len(),
        connect_ok_seq(v, raws, now_ms).pending_conns == v.pending_conns - raws.len(),
        raws.len() > 0 ==> connect_ok_seq(v, raws, now_ms).last_error is None,
    decreases raws.len(),
{
    if raws.len() > 0 {
        lemma_replenishment_grows_registry(
            v.connect_ok(raws.first(), now_ms),
            raws.drop_first(),
            now_ms,
        );
    }
}

/// Liveness of the idle target: a freshly built pool schedules exactly
/// `min_idle` connect attempts, and once a manager answers each of them
/// with a success — no acquisition needed — the registry holds `min_idle`
/// idle slots.
pub proof fn lemma_min_idle_reached<C>(config: PoolConfig, raws: Seq<C>, now_ms: u64)
    requires
        config.wf(),
        raws.len() == config.min_idle,
    ensures
        PoolView::<C>::init(config).establish().pending_conns == config.min_idle,
        connect_ok_seq(PoolView::<C>::init(config).establish(), raws, now_ms).idle.len()
            == config.min_idle,
        connect_ok_seq(PoolView::<C>::init(config).establish(), raws, now_ms).wf(),
{
    let v0 = PoolView::<C>::init(config).establish();
    assert(v0.pending_conns == config.min_idle);
    lemma_replenishment_grows_registry(v0, raws, now_ms);
}

/// The state after a sequence of failed connect reports.
pub open spec fn connect_err_seq<C>(v: PoolView<C>, errs: Seq<Seq<char>>) -> PoolView<C>
    decreases errs.len(),
{
    if errs.len() == 0 {
        v
    } else {
        connect_err_seq(v.connect_err(errs.first()), errs.drop_first())
    }
}

/// Retry until success: however many times a replenishment task's connect
/// fails, the failures change nothing but the recorded error — which
/// always holds the most recent failure — and the pending reservation
/// survives, so the success that follows still yields exactly one new
/// idle slot and clears the recorded error.
pub proof fn lemma_retry_until_success<C>(
    v: PoolView<C>,
    errs: Seq<Seq<char>>,
    raw: C,
    now_ms: u64,
)
    requires
        v.wf(),
        v.pending_conns >= 1,
        v.next_id < u64::MAX,
    ensures
        connect_err_seq(v, errs).wf(),
        connect_err_seq(v, errs).idle == v.idle,
        connect_err_seq(v, errs).num_conns == v.num_conns,
        connect_err_seq(v, errs).pending_conns == v.pending_conns,
        errs.len() > 0 ==> connect_err_seq(v, errs).last_error == Some(errs.last()),
        connect_err_seq(v, errs).connect_ok(raw, now_ms).idle.len() == v.idle.len() + 1,
        connect_err_seq(v, errs).connect_ok(raw, now_ms).last_error is None,
        connect_err_seq(v, errs).connect_ok(raw, now_ms).wf(),
    decreases errs.len(),
{
    if errs.len() > 0 {
        lemma_retry_until_success(v.connect_err(errs.first()), errs.drop_first(), raw, now_ms);
        if errs.len() > 1 {
            assert(errs.drop_first().last() == errs.last());
        }
    }
}

/// Identity freshness: as long as every idle slot's id lies below the id
/// counter, an established connection receives the counter's value as a
/// fresh id, distinct from every id already in the registry, and the
/// bound survives the transition — ids are monotonic and never reused.
pub proof fn lemma_ids_stay_fresh<C>(v: PoolView<C>, raw: C, now_ms: u64)
    requires
        v.wf(),
        v.pending_conns >= 1,
        v.next_id < u64::MAX,
        forall|j: int| 0 <= j < v.idle.len() ==> v.idle[j].conn.id < v.next_id,
    ensures
        v.connect_ok(raw, now_ms).idle.last().conn.id == v.next_id,
        forall|j: int|
            0 <= j < v.connect_ok(raw, now_ms).idle.len() ==> v.connect_ok(
                raw,
                now_ms,
            ).idle[j].conn.id < v.connect_ok(raw, now_ms).next_id,
        forall|j: int| 0 <= j < v.idle.len() ==> v.idle[j].conn.id != v.next_id,
{
    let w = v.connect_ok(raw, now_ms);
    assert forall|j: int| 0 <= j < w.idle.len() implies w.idle[j].conn.id < w.next_id by {
        if j < v.idle.len() {
            assert(w.idle[j] == v.idle[j]);
        } else {
            assert(w.idle[j].conn.id == v.next_id);
        }
    }
}

/// Broken-connection eviction: discarding a checked-out slot leaves the
/// idle registry untouched — a slot found broken is never reinserted —
/// while the live count reflects its removal and a replacement attempt is
/// scheduled.
pub proof fn lemma_broken_eviction<C>(v: PoolView<C>, slot: Conn<C>)
    requires
        v.wf(),
        v.num_conns >= 1,
        v.idle.len() < v.num_conns,
        forall|j: int| 0 <= j < v.idle.len() ==> v.idle[j].conn.id != slot.id,
    ensures
        v.discard().idle == v.idle,
        v.discard().num_conns == v.num_conns - 1,
        v.discard().pending_conns == v.pending_conns + 1,
        forall|j: int|
            0 <= j < v.discard().idle.len() ==> v.discard().idle[j].conn.id != slot.id,
        v.discard().wf(),
{
}

/// Single-slot exclusion: with a capacity of one, at most one live slot
/// exists, a checkout empties the registry, and every acquisition that
/// finds the registry empty suspends the caller as one more waiter instead
/// of handing out a second lease. That the one checked-out slot has a
/// single owner is then the shell's ownership of the popped value.
pub proof fn lemma_single_slot_exclusion<C>(v: PoolView<C>)
    requires
        v.wf(),
        v.max_size == 1,
        v.waiters < u32::MAX,
    ensures
        v.num_conns + v.pending_conns <= 1,
        v.idle.len() <= 1,
        v.idle.len() == 1 ==> v.checkout().idle.len() == 0,
        v.idle.len() == 0 ==> v.register_waiter().waiters == v.waiters + 1,
{
}

/// Timeout accuracy, the coordinator's share of it: when the deadline
/// arithmetic does not saturate, an acquisition is judged timed out
/// exactly when the elapsed time has reached the requested timeout — never
/// earlier. How soon after the deadline the shell's timer fires is the
/// shell's accuracy, not decided here.
pub proof fn lemma_timeout_exactly_at_deadline(start_ms: u64, timeout_ms: u64, now_ms: u64)
    requires
        start_ms + timeout_ms <= u64::MAX,
        now_ms >= start_ms,
    ensures
        (now_ms >= spec_deadline(start_ms, timeout_ms)) <==> (now_ms - start_ms >= timeout_ms),
{
}

} // verus!
