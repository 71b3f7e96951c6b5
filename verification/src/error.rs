//! The error kinds of the masters that this crate itself provides.

use vstd::prelude::*;

verus! {

/// Why an operation of one of this crate's own masters failed.
#[derive(Debug, PartialEq, Eq)]
pub enum Error<E> {
    /// The transport underneath failed; its error is handed on as it came.
    Transport(E),
    /// A transfer moved another number of bytes than the operation is made of.
    ProtocolViolation,
    /// The master lacks what the operation needs.
    Unsupported,
}

impl<E> Error<E> {
    /// A transport's result as the result of a master built on top of it.
    pub open spec fn lift<T>(r: Result<T, E>) -> Result<T, Error<E>> {
        match r {
            Ok(v) => Ok(v),
            Err(e) => Err(Error::Transport(e)),
        }
    }

    /// Hands a transport's result on, marking a failure as the transport's.
    pub fn from_transport<T>(r: Result<T, E>) -> (out: Result<T, Error<E>>)
        ensures
            out == Self::lift(r),
    {
        match r {
            Ok(v) => Ok(v),
            Err(e) => Err(Error::Transport(e)),
        }
    }
}

} // verus!
