//! The data carried by a checkout guard: one connection slot held
//! exclusively by a caller.
//!
//! The unverified shell wraps this in an RAII guard that releases the slot
//! back to the coordinator on every exit path. Dereferencing while the raw
//! value is detached is a programming error; the shell checks
//! `is_attached` and fails fast, which is why the accessors here may
//! require an attached value.

use crate::pool::Conn;
use vstd::prelude::*;

verus! {

/// One exclusive lease on a connection slot, removed from the idle
/// registry. While it exists, the slot counts toward `num_conns` but is
/// absent from the registry.
pub struct PooledConnection<C> {
    pub conn: Conn<C>,
}

impl<C> PooledConnection<C> {
    /// Wraps a slot popped by an acquisition.
    pub fn checkout(conn: Conn<C>) -> (r: PooledConnection<C>)
        ensures
            r.conn == conn,
    {
        PooledConnection { conn }
    }

    /// Whether a raw connection value is currently attached.
    pub fn is_attached(&self) -> (r: bool)
        ensures
            r == (self.conn.raw is Some),
    {
        self.conn.raw.is_some()
    }

    /// Detaches the raw connection value, leaving the slot inert; its fate
    /// is the caller's responsibility until `set_raw_conn` reattaches one.
    pub fn take_raw_conn(&mut self) -> (raw: C)
        requires
            old(self).conn.raw is Some,
        ensures
            raw == old(self).conn.raw.unwrap(),
            final(self).conn == (Conn { raw: None, ..old(self).conn }),
    {
        let raw = self.conn.raw.take();
        raw.unwrap()
    }

    /// Reattaches a raw connection value to the slot.
    pub fn set_raw_conn(&mut self, raw: C)
        ensures
            final(self).conn == (Conn { raw: Some(raw), ..old(self).conn }),
    {
        self.conn.raw = Some(raw);
    }

    /// Read access to the attached raw connection.
    pub fn raw_conn(&self) -> (raw: &C)
        requires
            self.conn.raw is Some,
        ensures
            *raw == self.conn.raw.unwrap(),
    {
        match &self.conn.raw {
            Some(raw) => raw,
            None => unreached(),
        }
    }

    /// Write access to the attached raw connection.
    pub fn raw_conn_mut(&mut self) -> (raw: &mut C)
        requires
            old(self).conn.raw is Some,
        ensures
            *raw == old(self).conn.raw.unwrap(),
            final(self).conn == (Conn { raw: Some(*final(raw)), ..old(self).conn }),
    {
        match &mut self.conn.raw {
            Some(raw) => raw,
            None => unreached(),
        }
    }

    /// Gives the slot up for release: the guard ends and the slot goes
    /// back to the coordinator.
    pub fn into_conn(self) -> (r: Conn<C>)
        ensures
            r == self.conn,
    {
        self.conn
    }
}

} // verus!
