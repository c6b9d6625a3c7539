//! The pool coordinator: the mutex-guarded bookkeeping of a bounded
//! connection pool.
//!
//! `PoolInternals` is the single locked aggregate: the idle registry
//! (stack discipline), the live/pending counters, the most recent connect
//! error, the per-pool connection-id counter and the count of suspended
//! waiters. Every method is a pure, O(1)-or-O(registry) bookkeeping
//! transition: the unverified shell calls exactly one of them per critical
//! section and performs the returned action (spawn replenishment tasks,
//! suspend, wake a waiter) outside the lock.
//!
//! The ghost model `PoolView` abstracts the aggregate; each transition is
//! mirrored by a spec function on the view, and every method's `ensures`
//! pins the new view to that spec transition. The capacity invariants —
//! `num_conns + pending_conns <= max_size` and
//! `idle registry length <= num_conns` — are part of `PoolView::wf`, which
//! the constructor establishes and every transition preserves.

use vstd::prelude::*;

verus! {

/// Delay between consecutive failed connection-establishment attempts of a
/// replenishment task, in milliseconds.
pub const BACKOFF_MS: u64 = 200;

/// The smaller of two integers.
pub open spec fn imin(a: int, b: int) -> int {
    if a < b {
        a
    } else {
        b
    }
}

/// Immutable pool configuration.
pub struct PoolConfig {
    /// Largest number of live plus pending connections the pool may reach.
    pub max_size: u32,
    /// Number of idle connections the replenishment process aims for.
    pub min_idle: u32,
    /// Default acquisition deadline, in milliseconds.
    pub connection_timeout_ms: u64,
}

impl PoolConfig {
    /// A configuration is valid when it admits at least one connection and
    /// the idle target does not exceed the capacity.
    pub open spec fn wf(self) -> bool {
        &&& 1 <= self.max_size
        &&& self.min_idle <= self.max_size
    }

    /// Validates the options a builder collected. `min_idle` defaults to
    /// `max_size`. Returns `None` exactly when `max_size` is zero or the
    /// requested `min_idle` exceeds `max_size`.
    pub fn new(max_size: u32, min_idle: Option<u32>, connection_timeout_ms: u64) -> (r: Option<
        PoolConfig,
    >)
        ensures
            r is Some <==> (1 <= max_size && (min_idle is Some ==> min_idle.unwrap() <= max_size)),
            r is Some ==> r.unwrap() == (PoolConfig {
                max_size,
                min_idle: if min_idle is Some {
                    min_idle.unwrap()
                } else {
                    max_size
                },
                connection_timeout_ms,
            }),
            r is Some ==> r.unwrap().wf(),
    {
        if max_size < 1 {
            return None;
        }
        let mi: u32 = match min_idle {
            Some(m) => {
                if m > max_size {
                    return None;
                }
                m
            },
            None => max_size,
        };
        Some(PoolConfig { max_size, min_idle: mi, connection_timeout_ms })
    }
}

/// One connection slot: a raw connection value with its identity and birth
/// time. The raw value is optional because a caller may temporarily detach
/// it; a slot with no raw value is inert but valid.
pub struct Conn<C> {
    pub raw: Option<C>,
    pub id: u64,
    pub birth: u64,
}

/// An idle-registry entry: a slot plus the time it entered the registry.
pub struct IdleConn<C> {
    pub conn: Conn<C>,
    pub idle_start: u64,
}

/// The ghost model of the locked aggregate.
pub ghost struct PoolView<C> {
    pub max_size: u32,
    pub min_idle: u32,
    pub connection_timeout_ms: u64,
    /// The idle registry, oldest entry first; the last element is the next
    /// one popped.
    pub idle: Seq<IdleConn<C>>,
    /// All live slots: idle plus checked out.
    pub num_conns: u32,
    /// Connect attempts in flight, not yet materialized.
    pub pending_conns: u32,
    /// The most recent connect failure, for diagnostic surfacing.
    pub last_error: Option<Seq<char>>,
    /// The id the next established connection will receive.
    pub next_id: u64,
    /// Callers suspended on the idle registry.
    pub waiters: u32,
}

impl<C> PoolView<C> {
    /// The capacity invariants of the pool, true in every reachable state:
    /// live plus pending connections never exceed `max_size`, and the idle
    /// registry never holds more slots than are live.
    pub open spec fn wf(self) -> bool {
        &&& 1 <= self.max_size
        &&& self.min_idle <= self.max_size
        &&& self.num_conns + self.pending_conns <= self.max_size
        &&& self.idle.len() <= self.num_conns
    }

    /// The state of a freshly built pool: empty registry, zero counters.
    pub open spec fn init(config: PoolConfig) -> PoolView<C> {
        PoolView {
            max_size: config.max_size,
            min_idle: config.min_idle,
            connection_timeout_ms: config.connection_timeout_ms,
            idle: Seq::empty(),
            num_conns: 0,
            pending_conns: 0,
            last_error: None,
            next_id: 0,
            waiters: 0,
        }
    }

    /// How many more connect attempts the capacity admits.
    pub open spec fn room(self) -> int {
        self.max_size - self.num_conns - self.pending_conns
    }

    /// The admission check: a new connect attempt may be scheduled only
    /// while live plus pending connections stay below `max_size`.
    pub open spec fn admits_new(self) -> bool {
        self.num_conns + self.pending_conns < self.max_size
    }

    /// Scheduling one connect attempt, subject to the admission check.
    pub open spec fn add_connection(self) -> PoolView<C> {
        if self.admits_new() {
            PoolView { pending_conns: (self.pending_conns + 1) as u32, ..self }
        } else {
            self
        }
    }

    /// How far the idle registry is below the `min_idle` target.
    pub open spec fn idle_gap(self) -> int {
        if self.idle.len() < self.min_idle {
            self.min_idle - self.idle.len()
        } else {
            0
        }
    }

    /// How many replenishment attempts a sizing check schedules: enough to
    /// close the gap to `min_idle`, but never beyond `max_size`.
    pub open spec fn replenish_count(self) -> int {
        imin(self.idle_gap(), self.room())
    }

    /// The sizing check: schedules `replenish_count` connect attempts.
    pub open spec fn establish(self) -> PoolView<C> {
        PoolView { pending_conns: (self.pending_conns + self.replenish_count()) as u32, ..self }
    }

    /// A replenishment task's connect attempt succeeded: the new slot is
    /// stamped with the next id and pushed into the idle registry, the
    /// pending reservation becomes a live connection, the last error is
    /// cleared, and one suspended waiter (if any) is woken.
    pub open spec fn connect_ok(self, raw: C, now_ms: u64) -> PoolView<C> {
        PoolView {
            idle: self.idle.push(
                IdleConn {
                    conn: Conn { raw: Some(raw), id: self.next_id, birth: now_ms },
                    idle_start: now_ms,
                },
            ),
            num_conns: (self.num_conns + 1) as u32,
            pending_conns: (self.pending_conns - 1) as u32,
            last_error: None,
            next_id: (self.next_id + 1) as u64,
            waiters: if self.waiters > 0 {
                (self.waiters - 1) as u32
            } else {
                0
            },
            ..self
        }
    }

    /// A replenishment task's connect attempt failed: only the recorded
    /// error changes; the pending reservation stays for the retry.
    pub open spec fn connect_err(self, err: Seq<char>) -> PoolView<C> {
        PoolView { last_error: Some(err), ..self }
    }

    /// The slot an acquisition pops: the most recently pushed entry.
    pub open spec fn checked_out_conn(self) -> Conn<C> {
        self.idle.last().conn
    }

    /// A successful acquisition: pop the newest idle entry, then run the
    /// sizing check.
    pub open spec fn checkout(self) -> PoolView<C> {
        PoolView { idle: self.idle.drop_last(), ..self }.establish()
    }

    /// How many replenishment attempts the sizing check after a checkout
    /// schedules.
    pub open spec fn checkout_spawn_count(self) -> int {
        PoolView { idle: self.idle.drop_last(), ..self }.replenish_count()
    }

    /// An acquisition that found the registry empty: request one more
    /// connection (subject to admission) and suspend the caller, all in the
    /// same critical section, so no wake-up can be lost.
    pub open spec fn register_waiter(self) -> PoolView<C> {
        let v = self.add_connection();
        PoolView { waiters: (v.waiters + 1) as u32, ..v }
    }

    /// A suspended caller whose deadline elapsed leaves the wait set; any
    /// connection request it triggered remains and benefits a later caller.
    pub open spec fn cancel_waiter(self) -> PoolView<C> {
        PoolView { waiters: (self.waiters - 1) as u32, ..self }
    }

    /// A checked-out slot is discarded (broken or abandoned): it no longer
    /// counts as live, and a replacement attempt is scheduled. Because the
    /// slot freed capacity in the same transition, the admission check
    /// always passes.
    pub open spec fn discard(self) -> PoolView<C> {
        PoolView {
            num_conns: (self.num_conns - 1) as u32,
            pending_conns: (self.pending_conns + 1) as u32,
            ..self
        }
    }

    /// A healthy slot returns to the pool: it is pushed back onto the idle
    /// registry with a fresh `idle_start`, and one suspended waiter (if
    /// any) is woken.
    pub open spec fn give_back(self, slot: Conn<C>, now_ms: u64) -> PoolView<C> {
        PoolView {
            idle: self.idle.push(IdleConn { conn: slot, idle_start: now_ms }),
            waiters: if self.waiters > 0 {
                (self.waiters - 1) as u32
            } else {
                0
            },
            ..self
        }
    }
}

/// The outcome of one locked acquisition step.
pub enum AcquireStep<C> {
    /// An idle slot was popped; the caller now holds it exclusively.
    /// `spawn` replenishment tasks must be started for the sizing check.
    Checkout { conn: Conn<C>, spawn: u32 },
    /// The registry was empty; the caller was registered as a waiter and
    /// must suspend. If `schedule_connect` holds, one replenishment task
    /// was admitted and must be started.
    Wait { schedule_connect: bool },
}

/// The outcome of releasing a checked-out slot.
pub enum ReleaseAction {
    /// The slot went back into the idle registry; if `woke_waiter` holds,
    /// one suspended caller was taken from the wait set and must be woken.
    Returned { woke_waiter: bool },
    /// The slot was discarded and one replacement replenishment task was
    /// admitted and must be started.
    Discarded,
}

/// The single locked aggregate of the pool.
pub struct PoolInternals<C> {
    config: PoolConfig,
    conns: Vec<IdleConn<C>>,
    num_conns: u32,
    pending_conns: u32,
    last_error: Option<String>,
    next_id: u64,
    waiters: u32,
}

/// The abstraction of an optional error string.
pub open spec fn err_view(o: Option<String>) -> Option<Seq<char>> {
    match o {
        Some(s) => Some(s@),
        None => None,
    }
}

impl<C> View for PoolInternals<C> {
    type V = PoolView<C>;

    closed spec fn view(&self) -> PoolView<C> {
        PoolView {
            max_size: self.config.max_size,
            min_idle: self.config.min_idle,
            connection_timeout_ms: self.config.connection_timeout_ms,
            idle: self.conns@,
            num_conns: self.num_conns,
            pending_conns: self.pending_conns,
            last_error: err_view(self.last_error),
            next_id: self.next_id,
            waiters: self.waiters,
        }
    }
}

impl<C> PoolInternals<C> {
    /// Builds the internals of a fresh pool and runs the initial sizing
    /// check. The returned count is how many replenishment tasks the caller
    /// must spawn; it always equals the configured idle target.
    pub fn new(config: PoolConfig) -> (r: (PoolInternals<C>, u32))
        requires
            config.wf(),
        ensures
            r.0@ == PoolView::<C>::init(config).establish(),
            r.0@.wf(),
            r.1 == config.min_idle,
    {
        let mut internals = PoolInternals {
            config,
            conns: Vec::new(),
            num_conns: 0,
            pending_conns: 0,
            last_error: None,
            next_id: 0,
            waiters: 0,
        };
        let scheduled = internals.establish_idle_connections();
        (internals, scheduled)
    }

    /// Schedules one connect attempt if the capacity admits it; the
    /// admission check and the `pending_conns` increment happen in the same
    /// transition, so concurrent callers racing the check cannot overshoot
    /// `max_size`. Returns whether an attempt was admitted — if so, the
    /// caller must spawn one replenishment task.
    pub fn add_connection(&mut self) -> (scheduled: bool)
        requires
            old(self)@.wf(),
        ensures
            final(self)@ == old(self)@.add_connection(),
            scheduled == old(self)@.admits_new(),
            final(self)@.wf(),
    {
        if self.num_conns + self.pending_conns < self.config.max_size {
            self.pending_conns = self.pending_conns + 1;
            true
        } else {
            false
        }
    }

    /// The sizing check: compares the idle-registry length against
    /// `min_idle` and schedules exactly enough connect attempts to close
    /// the gap, subject to the admission check. Returns how many attempts
    /// were admitted — the caller must spawn that many replenishment tasks.
    pub fn establish_idle_connections(&mut self) -> (n: u32)
        requires
            old(self)@.wf(),
        ensures
            final(self)@ == old(self)@.establish(),
            n as int == old(self)@.replenish_count(),
            final(self)@.wf(),
    {
        let min = self.config.min_idle;
        let idle: u32 = self.conns.len() as u32;
        let mut scheduled: u32 = 0;
        let mut i: u32 = idle;
        while i < min
            invariant
                old(self)@.wf(),
                idle == old(self)@.idle.len(),
                min == old(self)@.min_idle,
                idle <= i,
                i <= (if min > idle {
                    min as int
                } else {
                    idle as int
                }),
                scheduled == imin(i - idle, old(self)@.room()),
                self@ == (PoolView {
                    pending_conns: (old(self)@.pending_conns + scheduled) as u32,
                    ..old(self)@
                }),
                self@.wf(),
            decreases min - i,
        {
            if self.add_connection() {
                scheduled = scheduled + 1;
            }
            i = i + 1;
        }
        scheduled
    }

    /// A replenishment task reports a successful connect. The raw value
    /// becomes a live idle slot stamped with the next connection id and
    /// with `birth` and `idle_start` set to `now_ms`. Returns the new
    /// slot's id and whether a suspended waiter was taken from the wait set
    /// (if so, the caller must wake one waiter).
    pub fn connect_succeeded(&mut self, raw: C, now_ms: u64) -> (r: (u64, bool))
        requires
            old(self)@.wf(),
            old(self)@.pending_conns >= 1,
            old(self)@.next_id < u64::MAX,
        ensures
            final(self)@ == old(self)@.connect_ok(raw, now_ms),
            r.0 == old(self)@.next_id,
            r.1 == (old(self)@.waiters > 0),
            final(self)@.wf(),
    {
        let id = self.next_id;
        self.next_id = self.next_id + 1;
        self.last_error = None;
        self.conns.push(
            IdleConn {
                conn: Conn { raw: Some(raw), id, birth: now_ms },
                idle_start: now_ms,
            },
        );
        self.pending_conns = self.pending_conns - 1;
        self.num_conns = self.num_conns + 1;
        let wake = self.waiters > 0;
        if wake {
            self.waiters = self.waiters - 1;
        }
        (id, wake)
    }

    /// A replenishment task reports a failed connect. Only the recorded
    /// error changes; the pending reservation stays, so the capacity
    /// accounting covers the whole retry lifetime. Returns the backoff
    /// delay after which the task must retry.
    pub fn connect_failed(&mut self, err: String) -> (delay_ms: u64)
        requires
            old(self)@.wf(),
        ensures
            final(self)@ == old(self)@.connect_err(err@),
            delay_ms == BACKOFF_MS,
            final(self)@.wf(),
    {
        self.last_error = Some(err);
        BACKOFF_MS
    }

    /// One locked acquisition step. If an idle slot is present, it is
    /// popped (newest first) and the sizing check runs; otherwise one more
    /// connection is requested (subject to admission) and the caller is
    /// registered as a waiter in the same critical section, so a push
    /// between unlock and suspension cannot lose its wake-up.
    pub fn try_acquire(&mut self) -> (r: AcquireStep<C>)
        requires
            old(self)@.wf(),
            old(self)@.waiters < u32::MAX,
        ensures
            old(self)@.idle.len() > 0 ==> {
                &&& final(self)@ == old(self)@.checkout()
                &&& r matches AcquireStep::Checkout { conn, spawn } && conn == old(
                    self,
                )@.checked_out_conn() && spawn as int == old(self)@.checkout_spawn_count()
            },
            old(self)@.idle.len() == 0 ==> {
                &&& final(self)@ == old(self)@.register_waiter()
                &&& r matches AcquireStep::Wait { schedule_connect } && schedule_connect == old(
                    self,
                )@.admits_new()
            },
            final(self)@.wf(),
    {
        match self.conns.pop() {
            Some(entry) => {
                let spawn = self.establish_idle_connections();
                AcquireStep::Checkout { conn: entry.conn, spawn }
            },
            None => {
                let schedule_connect = self.add_connection();
                self.waiters = self.waiters + 1;
                AcquireStep::Wait { schedule_connect }
            },
        }
    }

    /// A suspended caller's deadline elapsed: it leaves the wait set. Any
    /// connection request it triggered remains valid and benefits a later
    /// caller.
    pub fn cancel_waiter(&mut self)
        requires
            old(self)@.wf(),
            old(self)@.waiters >= 1,
        ensures
            final(self)@ == old(self)@.cancel_waiter(),
            final(self)@.wf(),
    {
        self.waiters = self.waiters - 1;
    }

    /// Releases a checked-out slot. A broken slot, or one whose raw value
    /// was detached, is discarded: it stops counting as live and a
    /// replacement attempt is scheduled (the freed capacity guarantees
    /// admission). A healthy, attached slot is pushed back onto the idle
    /// registry with a fresh `idle_start`, waking one suspended waiter if
    /// any.
    ///
    /// A held slot counts toward `num_conns` while being absent from the
    /// registry, which is what the two preconditions state.
    pub fn release(&mut self, slot: Conn<C>, broken: bool, now_ms: u64) -> (r: ReleaseAction)
        requires
            old(self)@.wf(),
            old(self)@.num_conns >= 1,
            old(self)@.idle.len() < old(self)@.num_conns,
        ensures
            (broken || slot.raw is None) ==> {
                &&& final(self)@ == old(self)@.discard()
                &&& r is Discarded
            },
            (!broken && slot.raw is Some) ==> {
                &&& final(self)@ == old(self)@.give_back(slot, now_ms)
                &&& r matches ReleaseAction::Returned { woke_waiter } && woke_waiter == (old(
                    self,
                )@.waiters > 0)
            },
            final(self)@.wf(),
    {
        if broken || slot.raw.is_none() {
            self.num_conns = self.num_conns - 1;
            self.pending_conns = self.pending_conns + 1;
            ReleaseAction::Discarded
        } else {
            self.conns.push(IdleConn { conn: slot, idle_start: now_ms });
            let woke_waiter = self.waiters > 0;
            if woke_waiter {
                self.waiters = self.waiters - 1;
            }
            ReleaseAction::Returned { woke_waiter }
        }
    }

    /// The configured capacity.
    pub fn max_size(&self) -> (r: u32)
        ensures
            r == self@.max_size,
    {
        self.config.max_size
    }

    /// The configured idle target.
    pub fn min_idle(&self) -> (r: u32)
        ensures
            r == self@.min_idle,
    {
        self.config.min_idle
    }

    /// The configured default acquisition timeout, in milliseconds.
    pub fn connection_timeout_ms(&self) -> (r: u64)
        ensures
            r == self@.connection_timeout_ms,
    {
        self.config.connection_timeout_ms
    }

    /// How many slots the idle registry currently holds.
    pub fn idle_len(&self) -> (r: usize)
        ensures
            r == self@.idle.len(),
    {
        self.conns.len()
    }

    /// How many live slots exist, idle and checked out together.
    pub fn num_conns(&self) -> (r: u32)
        ensures
            r == self@.num_conns,
    {
        self.num_conns
    }

    /// How many connect attempts are in flight.
    pub fn pending_conns(&self) -> (r: u32)
        ensures
            r == self@.pending_conns,
    {
        self.pending_conns
    }

    /// How many callers are suspended on the idle registry.
    pub fn waiters(&self) -> (r: u32)
        ensures
            r == self@.waiters,
    {
        self.waiters
    }

    /// The id the next established connection will receive.
    pub fn next_id(&self) -> (r: u64)
        ensures
            r == self@.next_id,
    {
        self.next_id
    }

    /// The most recent connect failure, surfaced as diagnostic context on
    /// a timeout.
    pub fn last_error(&self) -> (r: &Option<String>)
        ensures
            err_view(*r) == self@.last_error,
    {
        &self.last_error
    }
}

/// The moment an acquisition started plus its timeout, saturating at the
/// largest representable instant.
pub open spec fn spec_deadline(now_ms: u64, timeout_ms: u64) -> u64 {
    if now_ms + timeout_ms <= u64::MAX {
        (now_ms + timeout_ms) as u64
    } else {
        u64::MAX
    }
}

/// Computes an acquisition deadline: the current time plus the timeout,
/// saturating. The deadline never lies before `now_ms` and never more than
/// `timeout_ms` after it.
pub fn deadline_after(now_ms: u64, timeout_ms: u64) -> (d: u64)
    ensures
        d == spec_deadline(now_ms, timeout_ms),
        now_ms <= d,
        d - now_ms <= timeout_ms,
{
    if timeout_ms <= u64::MAX - now_ms {
        now_ms + timeout_ms
    } else {
        u64::MAX
    }
}

/// Whether an acquisition must fail with `Timeout`: exactly when the
/// current time has reached the deadline, never earlier.
pub fn timed_out(now_ms: u64, deadline_ms: u64) -> (b: bool)
    ensures
        b == (now_ms >= deadline_ms),
{
    now_ms >= deadline_ms
}

} // verus!
