//! The record of what a master has been asked to do.

use vstd::prelude::*;
use crate::error::Error;

verus! {

/// One isolated transfer: START, address, data, STOP.
pub enum Transfer<E> {
    /// A read. `buffer` is the caller's buffer as the transfer left it, so its
    /// length is the number of bytes asked for; `count` is what the transport
    /// answered.
    Read { buffer: Seq<u8>, count: Result<usize, E> },
    /// A write of `data`.
    Write { data: Seq<u8>, done: Result<(), E> },
}

/// The transfers of a master, oldest first.
pub type Trace<E> = Seq<Transfer<E>>;

impl<E> Transfer<E> {
    /// This transfer asked for `len` bytes to be read.
    pub open spec fn reads(self, len: nat) -> bool {
        self matches Transfer::Read { buffer, .. } && buffer.len() == len
    }

    /// This transfer wrote exactly `frame`.
    pub open spec fn writes(self, frame: Seq<u8>) -> bool {
        self matches Transfer::Write { data, .. } && data == frame
    }

    /// The transport's error, if the transfer failed.
    pub open spec fn failure(self) -> Option<E> {
        match self {
            Transfer::Read { count: Err(e), .. } => Some(e),
            Transfer::Write { done: Err(e), .. } => Some(e),
            _ => None,
        }
    }

    /// Whether the transfer went through, whatever it moved.
    pub open spec fn status(self) -> Result<(), Error<E>> {
        match self.failure() {
            Some(e) => Err(Error::Transport(e)),
            None => Ok(()),
        }
    }

    /// The same transfer as a master on top of the transport reports it.
    pub open spec fn lifted(self) -> Transfer<Error<E>> {
        match self {
            Transfer::Read { buffer, count } => Transfer::Read { buffer, count: Error::lift(count) },
            Transfer::Write { data, done } => Transfer::Write { data, done: Error::lift(done) },
        }
    }
}

/// One request to address a slave, with what the master answered.
pub struct Addressing<E> {
    /// The address asked for.
    pub addr: u16,
    /// Whether it was asked for as a 10-bit address.
    pub tenbit: bool,
    /// Whether the master took it.
    pub done: Result<(), E>,
}

/// The requests to address a slave that a master got, oldest first.
pub type Addressings<E> = Seq<Addressing<E>>;

impl<E> Addressing<E> {
    /// The same request as a master on top of the transport reports it.
    pub open spec fn lifted(self) -> Addressing<Error<E>> {
        Addressing { addr: self.addr, tenbit: self.tenbit, done: Error::lift(self.done) }
    }
}

/// What `later` holds beyond `earlier`.
pub open spec fn added<E>(earlier: Trace<E>, later: Trace<E>) -> Trace<E>
    recommends
        earlier.is_prefix_of(later),
{
    later.skip(earlier.len() as int)
}

} // verus!
