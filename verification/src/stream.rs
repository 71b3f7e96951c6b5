//! Masters that are byte streams: a write is a transfer only if the stream
//! took all of it.

use vstd::prelude::*;

verus! {

/// A stream took fewer bytes than the transfer was made of.
#[derive(Clone, Copy, Debug, PartialEq, Eq, Structural)]
pub struct Truncated {
    /// How many bytes the stream took.
    pub written: usize,
}

/// Whether a stream that took `written` bytes of a write of `requested` bytes
/// has done the transfer.
pub fn written_in_full(written: usize, requested: usize) -> (r: Result<(), Truncated>)
    ensures
        r == if written == requested {
            Ok::<(), Truncated>(())
        } else {
            Err::<(), Truncated>(Truncated { written })
        },
{
    if written == requested {
        Ok(())
    } else {
        Err(Truncated { written })
    }
}

} // verus!
