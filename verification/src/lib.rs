//! A verified coordinator for an asynchronous connection pool.
//!
//! The pool hands out exclusive leases on a bounded set of reusable
//! connections. All shared-state bookkeeping — the idle registry, the
//! live/pending counters, the admission check, and the acquire/release
//! protocol — lives here as a verified state machine. An unverified shell
//! owns the mutex, the executor and the manager callbacks, and drives this
//! coordinator one locked transition at a time.

pub mod error;
pub mod guard;
pub mod laws;
pub mod pool;

pub use error::Error;
pub use guard::PooledConnection;
pub use pool::AcquireStep;
pub use pool::Conn;
pub use pool::IdleConn;
pub use pool::PoolConfig;
pub use pool::PoolInternals;
pub use pool::PoolView;
pub use pool::ReleaseAction;
