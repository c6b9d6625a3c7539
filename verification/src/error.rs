//! The error type surfaced to callers of the pool.

use vstd::prelude::*;

verus! {

/// An error returned by an acquisition attempt.
///
/// `Timeout` is the only error a caller should expect under normal
/// operation: the caller's deadline elapsed before a healthy idle slot
/// became available. `Inner` carries an error of the connection manager.
pub enum Error<E> {
    Inner(E),
    Timeout,
}

impl<E> Error<E> {
    /// True exactly when this error is a timeout.
    pub fn is_timeout(&self) -> (r: bool)
        ensures
            r == (self is Timeout),
    {
        match self {
            Error::Timeout => true,
            Error::Inner(_) => false,
        }
    }
}

impl<E> core::convert::From<E> for Error<E> {
    /// Wraps a manager error as `Error::Inner`.
    fn from(e: E) -> (r: Error<E>) {
        Error::Inner(e)
    }
}

impl<E> vstd::std_specs::convert::FromSpecImpl<E> for Error<E> {
    open spec fn obeys_from_spec() -> bool {
        true
    }

    open spec fn from_spec(e: E) -> Error<E> {
        Error::Inner(e)
    }
}

} // verus!
