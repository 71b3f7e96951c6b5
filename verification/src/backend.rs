//! What a master on top of a Linux I2C device decides for itself, before and
//! after the device is called: the device takes no 10-bit address, writes no
//! block of more than `BLOCK_MAX` bytes, is asked for a block by a length of
//! one byte, and hands blocks back as vectors.

use vstd::prelude::*;
use crate::error::Error;
use crate::frame::{copy_front, overlay, BLOCK_MAX};

verus! {

/// A wrapper around an `I2CDevice` type, to carry the traits of this crate.
pub struct I2cDev<I>(pub I);

impl<I> I2cDev<I> {
    /// How much of a block of `available` bytes a buffer of `capacity` bytes
    /// takes.
    pub open spec fn taken(available: int, capacity: int) -> int {
        if capacity <= available {
            capacity
        } else {
            available
        }
    }

    /// Hands the block `data`, which the device returned, on into `value`, as
    /// far as it fits. Returns the length of the block, which is more than
    /// `value` got if the block did not fit.
    pub fn map_buffer(data: Vec<u8>, value: &mut [u8]) -> (len: usize)
        ensures
            len == data@.len(),
            final(value)@ == overlay(
                old(value)@,
                data@,
                Self::taken(data@.len() as int, old(value)@.len() as int),
            ),
    {
        let len: usize = if value.len() <= data.len() {
            value.len()
        } else {
            data.len()
        };
        copy_front(value, data.as_slice(), 0, len);
        data.len()
    }

    /// The address to set on the device: `addr`, unless a 10-bit address is
    /// asked for, which fails with `Unsupported` before the device is touched.
    pub fn slave_address<E>(addr: u16, tenbit: bool) -> (r: Result<u16, Error<E>>)
        ensures
            r == if tenbit {
                Err::<u16, Error<E>>(Error::Unsupported)
            } else {
                Ok::<u16, Error<E>>(addr)
            },
    {
        if tenbit {
            Err(Error::Unsupported)
        } else {
            Ok(addr)
        }
    }

    /// The length of a block of `len` bytes that the device is to write,
    /// unless the block is longer than the device writes at once, which fails
    /// with `Unsupported` before the device is touched.
    pub fn block_len<E>(len: usize) -> (r: Result<u8, Error<E>>)
        ensures
            r == if len <= BLOCK_MAX {
                Ok::<u8, Error<E>>(len as u8)
            } else {
                Err::<u8, Error<E>>(Error::Unsupported)
            },
    {
        if len <= BLOCK_MAX {
            Ok(len as u8)
        } else {
            Err(Error::Unsupported)
        }
    }

    /// The length by which the device is asked for a block into a buffer of
    /// `len` bytes: the device's field for it is one byte, which holds the
    /// low eight bits of `len`.
    pub fn request_len(len: usize) -> (r: u8)
        ensures
            r == len % 256,
    {
        (len % 256) as u8
    }
}

} // verus!
