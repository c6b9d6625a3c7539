use conn_pool::pool::deadline_after;
use conn_pool::pool::timed_out;
use conn_pool::pool::BACKOFF_MS;
use conn_pool::AcquireStep;
use conn_pool::Conn;
use conn_pool::PoolConfig;
use conn_pool::PoolInternals;
use conn_pool::ReleaseAction;

fn pool(max_size: u32, min_idle: Option<u32>) -> (PoolInternals<u32>, u32) {
    let config = PoolConfig::new(max_size, min_idle, 30_000).unwrap();
    PoolInternals::new(config)
}

fn checkout(p: &mut PoolInternals<u32>) -> (Conn<u32>, u32) {
    match p.try_acquire() {
        AcquireStep::Checkout { conn, spawn } => (conn, spawn),
        AcquireStep::Wait { .. } => panic!("expected an idle slot"),
    }
}

#[test]
fn config_rejects_zero_capacity() {
    assert!(PoolConfig::new(0, None, 30_000).is_none());
}

#[test]
fn config_rejects_min_idle_above_capacity() {
    assert!(PoolConfig::new(2, Some(3), 30_000).is_none());
}

#[test]
fn config_defaults_min_idle_to_capacity() {
    let config = PoolConfig::new(4, None, 1_000).unwrap();
    assert_eq!(config.max_size, 4);
    assert_eq!(config.min_idle, 4);
    assert_eq!(config.connection_timeout_ms, 1_000);
}

#[test]
fn fresh_pool_reaches_min_idle_without_acquire() {
    let (mut p, scheduled) = pool(3, Some(2));
    assert_eq!(scheduled, 2);
    assert_eq!(p.pending_conns(), 2);
    assert_eq!(p.num_conns(), 0);
    assert_eq!(p.idle_len(), 0);

    let (id0, _) = p.connect_succeeded(100, 10);
    let (id1, _) = p.connect_succeeded(101, 11);
    assert_eq!(id0, 0);
    assert_eq!(id1, 1);
    assert_eq!(p.idle_len(), 2);
    assert_eq!(p.num_conns(), 2);
    assert_eq!(p.pending_conns(), 0);
}

#[test]
fn admission_never_exceeds_capacity() {
    let (mut p, scheduled) = pool(2, None);
    assert_eq!(scheduled, 2);
    assert!(p.num_conns() + p.pending_conns() <= p.max_size());

    assert!(!p.add_connection());
    assert_eq!(p.pending_conns(), 2);

    p.connect_succeeded(100, 1);
    p.connect_succeeded(101, 2);
    assert!(!p.add_connection());
    assert!(p.num_conns() + p.pending_conns() <= p.max_size());
    assert!(p.idle_len() as u32 <= p.num_conns());
}

#[test]
fn acquisition_pops_newest_slot() {
    let (mut p, _) = pool(3, Some(2));
    p.connect_succeeded(100, 1);
    p.connect_succeeded(101, 2);

    let (conn, spawn) = checkout(&mut p);
    assert_eq!(conn.id, 1);
    assert_eq!(conn.raw, Some(101));
    // The sizing check replaces the popped slot: one slot idle, target two.
    assert_eq!(spawn, 1);
    assert_eq!(p.pending_conns(), 1);
}

#[test]
fn lifo_reuse_returns_the_released_slot() {
    let (mut p, _) = pool(4, Some(2));
    p.connect_succeeded(100, 1);
    p.connect_succeeded(101, 2);

    let (conn, _) = checkout(&mut p);
    let released_id = conn.id;
    match p.release(conn, false, 50) {
        ReleaseAction::Returned { woke_waiter } => assert!(!woke_waiter),
        ReleaseAction::Discarded => panic!("healthy slot must return to the registry"),
    }

    let (again, _) = checkout(&mut p);
    assert_eq!(again.id, released_id);
    assert_eq!(again.raw, Some(101));
}

#[test]
fn broken_slot_is_never_reinserted() {
    let (mut p, _) = pool(3, Some(2));
    p.connect_succeeded(100, 1);
    p.connect_succeeded(101, 2);

    let (conn, _) = checkout(&mut p);
    let broken_id = conn.id;
    let idle_before = p.idle_len();
    let num_before = p.num_conns();
    match p.release(conn, true, 50) {
        ReleaseAction::Discarded => {}
        ReleaseAction::Returned { .. } => panic!("broken slot must be discarded"),
    }
    assert_eq!(p.idle_len(), idle_before);
    assert_eq!(p.num_conns(), num_before - 1);

    // The one slot still idle is the other one.
    let (rest, _) = checkout(&mut p);
    assert_ne!(rest.id, broken_id);
}

#[test]
fn detached_slot_is_abandoned_on_release() {
    let (mut p, _) = pool(2, Some(1));
    p.connect_succeeded(100, 1);

    let (mut conn, _) = checkout(&mut p);
    let raw = conn.raw.take().unwrap();
    assert_eq!(raw, 100);
    let num_before = p.num_conns();
    let pending_before = p.pending_conns();
    match p.release(conn, false, 50) {
        ReleaseAction::Discarded => {}
        ReleaseAction::Returned { .. } => panic!("a detached slot must be abandoned"),
    }
    assert_eq!(p.num_conns(), num_before - 1);
    assert_eq!(p.pending_conns(), pending_before + 1);
}

#[test]
fn empty_registry_suspends_callers_one_lease_at_a_time() {
    let (mut p, scheduled) = pool(1, Some(0));
    assert_eq!(scheduled, 0);

    // First caller: registry empty, one connect admitted, caller suspended.
    match p.try_acquire() {
        AcquireStep::Wait { schedule_connect } => assert!(schedule_connect),
        AcquireStep::Checkout { .. } => panic!("registry is empty"),
    }
    assert_eq!(p.waiters(), 1);
    assert_eq!(p.pending_conns(), 1);

    // Second caller: capacity exhausted, nothing more admitted.
    match p.try_acquire() {
        AcquireStep::Wait { schedule_connect } => assert!(!schedule_connect),
        AcquireStep::Checkout { .. } => panic!("registry is empty"),
    }
    assert_eq!(p.waiters(), 2);
    assert_eq!(p.pending_conns(), 1);

    // The connect lands: exactly one waiter is woken.
    let (_, wake) = p.connect_succeeded(100, 5);
    assert!(wake);
    assert_eq!(p.waiters(), 1);

    // The woken caller gets the one slot; the other keeps waiting.
    let (conn, _) = checkout(&mut p);
    match p.try_acquire() {
        AcquireStep::Wait { schedule_connect } => assert!(!schedule_connect),
        AcquireStep::Checkout { .. } => panic!("the only slot is checked out"),
    }
    assert_eq!(p.waiters(), 2);

    // Releasing hands the slot over: one waiter woken again.
    match p.release(conn, false, 9) {
        ReleaseAction::Returned { woke_waiter } => assert!(woke_waiter),
        ReleaseAction::Discarded => panic!("healthy slot must return"),
    }
    assert_eq!(p.waiters(), 1);

    // The remaining waiter's deadline elapses: it leaves the wait set.
    p.cancel_waiter();
    assert_eq!(p.waiters(), 0);
}

#[test]
fn retry_keeps_reservation_and_success_clears_last_error() {
    let (mut p, scheduled) = pool(1, Some(1));
    assert_eq!(scheduled, 1);

    let delay = p.connect_failed(String::from("refused"));
    assert_eq!(delay, BACKOFF_MS);
    assert_eq!(delay, 200);
    assert_eq!(p.last_error().as_deref(), Some("refused"));
    assert_eq!(p.pending_conns(), 1);
    assert_eq!(p.num_conns(), 0);

    let delay = p.connect_failed(String::from("reset"));
    assert_eq!(delay, BACKOFF_MS);
    assert_eq!(p.last_error().as_deref(), Some("reset"));
    assert_eq!(p.pending_conns(), 1);

    let (id, _) = p.connect_succeeded(100, 500);
    assert_eq!(id, 0);
    assert_eq!(p.idle_len(), 1);
    assert!(p.last_error().is_none());
    assert_eq!(p.pending_conns(), 0);
    assert_eq!(p.num_conns(), 1);
}

#[test]
fn deadline_arithmetic_is_exact_and_saturating() {
    assert_eq!(deadline_after(100, 50), 150);
    assert_eq!(deadline_after(0, 0), 0);
    assert_eq!(deadline_after(u64::MAX - 10, 50), u64::MAX);

    assert!(!timed_out(149, 150));
    assert!(timed_out(150, 150));
    assert!(timed_out(151, 150));
}
