//! SMBus on top of isolated reads and writes.

use vstd::prelude::*;
use crate::error::Error;
use crate::frame::{
    block_data, block_frame, block_reply, byte_data_frame, byte_reply, decode_block, decode_byte,
    decode_word, encode_block, encode_byte_data, encode_raw_block, encode_word_data,
    lemma_word_round_trip, raw_block_frame, word_data_frame, word_reply, BLOCK_MAX,
};
use crate::master::{Address, I2cBlock, Master, ReadWrite, Smbus, Smbus20};
use crate::transfer::{added, Addressing, Addressings, Trace, Transfer};

verus! {

/// A wrapper around a `ReadWrite` that implements `Smbus` on top of it.
///
/// Every operation is one or two isolated transfers of the wrapped master,
/// each with its own STOP. Repeated START is not supported, which may confuse
/// some devices and probably makes this a non-conforming implementation.
///
/// A quick command with `true` is a read of no bytes, one with `false` a
/// write of no bytes. A length-prefixed block that is written holds at most
/// `BLOCK_MAX` bytes, which is what its length byte is for: a longer one fails
/// with `Unsupported` before anything is transferred. A length-prefixed read
/// takes a buffer of any length and asks for one byte more, for the length;
/// only a buffer that leaves no room for that byte (one of `usize::MAX`
/// bytes) fails with `Unsupported`. Blocks without a length prefix are as long
/// as the wrapped master lets a transfer be.
pub struct SmbusReadWrite<I>(pub I);

/// `tail` is one write of `frame`.
pub open spec fn one_write<E>(tail: Trace<E>, frame: Seq<u8>) -> bool {
    tail.len() == 1 && tail[0].writes(frame)
}

/// `tail` is one read of `len` bytes.
pub open spec fn one_read<E>(tail: Trace<E>, len: nat) -> bool {
    tail.len() == 1 && tail[0].reads(len)
}

/// `tail` is a write of `frame` and then, unless the write failed, a read of
/// `len` bytes.
pub open spec fn write_then_read<E>(tail: Trace<E>, frame: Seq<u8>, len: nat) -> bool {
    &&& 1 <= tail.len() <= 2
    &&& tail[0].writes(frame)
    &&& tail.len() == 1 <==> tail[0].failure() is Some
    &&& tail.len() == 2 ==> tail[1].reads(len)
}

/// What an operation made of a write and a read returns: the write's error,
/// or else `reply`, which is what the read came to.
pub open spec fn after_write<T, E>(tail: Trace<E>, reply: Result<T, Error<E>>) -> Result<
    T,
    Error<E>,
> {
    match tail[0].failure() {
        Some(e) => Err(Error::Transport(e)),
        None => reply,
    }
}

/// What the read `t` is worth as the reply to a one-byte read.
pub open spec fn byte_read<E>(t: Transfer<E>) -> Result<u8, Error<E>> {
    match t {
        Transfer::Read { buffer, count } => byte_reply(count, buffer),
        Transfer::Write { .. } => Err(Error::ProtocolViolation),
    }
}

/// What the read `t` is worth as the reply to a two-byte read.
pub open spec fn word_read<E>(t: Transfer<E>) -> Result<u16, Error<E>> {
    match t {
        Transfer::Read { buffer, count } => word_reply(count, buffer),
        Transfer::Write { .. } => Err(Error::ProtocolViolation),
    }
}

/// What the read `t` is worth as the reply to a length-prefixed read.
pub open spec fn block_read<E>(t: Transfer<E>) -> Result<usize, Error<E>> {
    match t {
        Transfer::Read { buffer, count } => block_reply(count, buffer),
        Transfer::Write { .. } => Err(Error::ProtocolViolation),
    }
}

/// What the length-prefixed read `t` leaves in a buffer that held `value`.
pub open spec fn block_kept<E>(t: Transfer<E>, value: Seq<u8>) -> Seq<u8> {
    match t {
        Transfer::Read { buffer, count } => block_data(count, buffer, value),
        Transfer::Write { .. } => value,
    }
}

/// What the read `t` is worth as a read whose size is its length.
pub open spec fn raw_read<E>(t: Transfer<E>) -> Result<usize, Error<E>> {
    match t {
        Transfer::Read { count, .. } => Error::lift(count),
        Transfer::Write { .. } => Err(Error::ProtocolViolation),
    }
}

/// What the read `t` leaves in the buffer it was handed.
pub open spec fn raw_kept<E>(t: Transfer<E>, value: Seq<u8>) -> Seq<u8> {
    match t {
        Transfer::Read { buffer, .. } => buffer,
        Transfer::Write { .. } => value,
    }
}

/// A word that was written to a register and is echoed by the transport is
/// read back unchanged. Where `written` is what `smbus_write_word_data` of
/// `value` asked of the transport, and `read` what a later
/// `smbus_read_word_data` asked of it, whose command went through and whose
/// read found exactly the two bytes that were written behind the command,
/// that read returns `value`.
pub proof fn lemma_echoed_word_is_read_back<E>(
    command: u8,
    value: u16,
    written: Trace<E>,
    read: Trace<E>,
)
    requires
        one_write(written, word_data_frame(command, value)),
        write_then_read(read, seq![command], 2),
        read.len() == 2,
        read[1] matches Transfer::Read { buffer, count } && count == Ok::<usize, E>(2) && buffer
            == written[0]->data.skip(1),
    ensures
        after_write(read, word_read(read[1])) == Ok::<u16, Error<E>>(value),
{
    lemma_word_round_trip::<E>(command, value);
}

impl<I: Master> SmbusReadWrite<I> {
    /// The transfers that the wrapped master has been asked for.
    pub open spec fn bus(&self) -> Trace<I::Error> {
        self.0.transfers()
    }

    /// What the wrapped master has been asked for between `self` and `later`.
    pub open spec fn since(&self, later: &Self) -> Trace<I::Error> {
        added(self.bus(), later.bus())
    }

    /// `later` is this adapter after some more transfers, none taken back.
    pub open spec fn leads_to(&self, later: &Self) -> bool {
        self.bus().is_prefix_of(later.bus())
    }
}

/// A buffer of `len` bytes leaves room for the length byte in front of it.
pub open spec fn takes_length_byte(len: nat) -> bool {
    len + 1 <= usize::MAX
}

impl<I: ReadWrite> SmbusReadWrite<I> {
    /// Reads a length-prefixed block into `value`: one read of a byte more
    /// than `value` holds. Returns the length that the block reports for
    /// itself, which is more than `value` got if the block was cut short.
    /// Fails with `Unsupported`, and transfers nothing, where `value` leaves
    /// no room for the length byte.
    pub fn _smbus_read_block(&mut self, value: &mut [u8]) -> (r: Result<usize, Error<I::Error>>)
        ensures
            final(value)@.len() == old(value)@.len(),
            old(self).leads_to(final(self)),
            !takes_length_byte(old(value)@.len()) ==> {
                &&& r == Err::<usize, Error<I::Error>>(Error::Unsupported)
                &&& final(self).bus() == old(self).bus()
                &&& final(value)@ == old(value)@
            },
            takes_length_byte(old(value)@.len()) ==> {
                let tail = old(self).since(final(self));
                &&& one_read(tail, old(value)@.len() + 1)
                &&& r == block_read(tail[0])
                &&& final(value)@ == block_kept(tail[0], old(value)@)
            },
    {
        if value.len() == usize::MAX {
            return Err(Error::Unsupported);
        }
        let mut scratch: Vec<u8> = vec![0u8; value.len() + 1];
        let outcome = self.0.i2c_read(scratch.as_mut_slice());
        decode_block(outcome, scratch.as_slice(), value)
    }
}

impl<I: Master> Master for SmbusReadWrite<I> {
    type Error = Error<I::Error>;

    /// The transfers of the wrapped master, each failure marked as the
    /// transport's.
    open spec fn transfers(&self) -> Trace<Error<I::Error>> {
        self.0.transfers().map_values(|t: Transfer<I::Error>| t.lifted())
    }

    /// What the adapter itself refuses, and what the wrapped master says it
    /// lacks.
    open spec fn unsupported(error: Error<I::Error>) -> bool {
        match error {
            Error::Unsupported => true,
            Error::Transport(e) => I::unsupported(e),
            Error::ProtocolViolation => false,
        }
    }
}

impl<I: Address> Address for SmbusReadWrite<I> {
    open spec fn slave(&self) -> Option<(u16, bool)> {
        self.0.slave()
    }

    open spec fn tenbit(&self) -> bool {
        self.0.tenbit()
    }

    /// The requests of the wrapped master, each failure marked as the
    /// transport's.
    open spec fn addressings(&self) -> Addressings<Error<I::Error>> {
        self.0.addressings().map_values(|a: Addressing<I::Error>| a.lifted())
    }

    /// Hands the address to the wrapped master, once, and its answer back.
    fn set_slave_address(&mut self, addr: u16, tenbit: bool) -> (r: Result<(), Self::Error>)
        ensures
            final(self).0.addressings().len() == old(self).0.addressings().len() + 1,
            final(self).0.addressings().drop_last() == old(self).0.addressings(),
            ({
                let asked = final(self).0.addressings().last();
                &&& asked.addr == addr
                &&& asked.tenbit == tenbit
                &&& r == Error::lift(asked.done)
            }),
            final(self).bus() == old(self).bus(),
    {
        Error::from_transport(self.0.set_slave_address(addr, tenbit))
    }
}

impl<I: ReadWrite> ReadWrite for SmbusReadWrite<I> {
    /// One read of the wrapped master, into `value`.
    fn i2c_read(&mut self, value: &mut [u8]) -> (r: Result<usize, Self::Error>)
        ensures
            old(self).leads_to(final(self)),
            one_read(old(self).since(final(self)), old(value)@.len()),
            r == raw_read(old(self).since(final(self))[0]),
            final(value)@ == raw_kept(old(self).since(final(self))[0], old(value)@),
    {
        Error::from_transport(self.0.i2c_read(value))
    }

    /// One write of the wrapped master, of `value`.
    fn i2c_write(&mut self, value: &[u8]) -> (r: Result<(), Self::Error>)
        ensures
            old(self).leads_to(final(self)),
            one_write(old(self).since(final(self)), value@),
            r == old(self).since(final(self))[0].status(),
    {
        Error::from_transport(self.0.i2c_write(value))
    }
}

impl<I: ReadWrite> Smbus for SmbusReadWrite<I> {
    /// The bit travels as the direction of a transfer without data: a read of
    /// no bytes for `true`, a write of no bytes for `false`.
    fn smbus_write_quick(&mut self, value: bool) -> (r: Result<(), Self::Error>)
        ensures
            old(self).leads_to(final(self)),
            ({
                let tail = old(self).since(final(self));
                &&& if value {
                    one_read(tail, 0)
                } else {
                    one_write(tail, Seq::empty())
                }
                &&& r == tail[0].status()
            }),
    {
        if value {
            let mut none: [u8; 0] = [];
            match self.0.i2c_read(&mut none) {
                Ok(_) => Ok(()),
                Err(e) => Err(Error::Transport(e)),
            }
        } else {
            let none: [u8; 0] = [];
            assert(none@ =~= Seq::<u8>::empty());
            Error::from_transport(self.0.i2c_write(&none))
        }
    }

    /// One read of one byte, which fails with `ProtocolViolation` unless
    /// exactly one byte was read.
    fn smbus_read_byte(&mut self) -> (r: Result<u8, Self::Error>)
        ensures
            old(self).leads_to(final(self)),
            ({
                let tail = old(self).since(final(self));
                &&& one_read(tail, 1)
                &&& r == byte_read(tail[0])
            }),
    {
        let mut buf: [u8; 1] = [0u8; 1];
        let outcome = self.0.i2c_read(&mut buf);
        decode_byte(outcome, &buf)
    }

    /// One write of the byte.
    fn smbus_write_byte(&mut self, value: u8) -> (r: Result<(), Self::Error>)
        ensures
            old(self).leads_to(final(self)),
            ({
                let tail = old(self).since(final(self));
                &&& one_write(tail, seq![value])
                &&& r == tail[0].status()
            }),
    {
        let frame: [u8; 1] = [value];
        assert(frame@ =~= seq![value]);
        Error::from_transport(self.0.i2c_write(&frame))
    }

    /// A write of the command and then a read of one byte, which is not tried
    /// if the write fails.
    fn smbus_read_byte_data(&mut self, command: u8) -> (r: Result<u8, Self::Error>)
        ensures
            old(self).leads_to(final(self)),
            ({
                let tail = old(self).since(final(self));
                &&& write_then_read(tail, seq![command], 1)
                &&& r == after_write(tail, byte_read(tail[1]))
            }),
    {
        match self.smbus_write_byte(command) {
            Err(e) => Err(e),
            Ok(()) => {
                let r = self.smbus_read_byte();
                r
            },
        }
    }

    /// One write of the frame `[command, value]`.
    fn smbus_write_byte_data(&mut self, command: u8, value: u8) -> (r: Result<(), Self::Error>)
        ensures
            old(self).leads_to(final(self)),
            ({
                let tail = old(self).since(final(self));
                &&& one_write(tail, byte_data_frame(command, value))
                &&& r == tail[0].status()
            }),
    {
        let frame = encode_byte_data(command, value);
        Error::from_transport(self.0.i2c_write(&frame))
    }

    /// A write of the command and then a read of two bytes, the low byte
    /// first. The read is not tried if the write fails, and fails with
    /// `ProtocolViolation` unless exactly two bytes were read.
    fn smbus_read_word_data(&mut self, command: u8) -> (r: Result<u16, Self::Error>)
        ensures
            old(self).leads_to(final(self)),
            ({
                let tail = old(self).since(final(self));
                &&& write_then_read(tail, seq![command], 2)
                &&& r == after_write(tail, word_read(tail[1]))
            }),
    {
        match self.smbus_write_byte(command) {
            Err(e) => Err(e),
            Ok(()) => {
                let mut buf: [u8; 2] = [0u8; 2];
                let outcome = self.0.i2c_read(&mut buf);
                decode_word(outcome, &buf)
            },
        }
    }

    /// One write of the frame `[command, low, high]`.
    fn smbus_write_word_data(&mut self, command: u8, value: u16) -> (r: Result<(), Self::Error>)
        ensures
            old(self).leads_to(final(self)),
            ({
                let tail = old(self).since(final(self));
                &&& one_write(tail, word_data_frame(command, value))
                &&& r == tail[0].status()
            }),
    {
        let frame = encode_word_data(command, value);
        Error::from_transport(self.0.i2c_write(&frame))
    }

    /// The write of `smbus_write_word_data` and then a read of two bytes as in
    /// `smbus_read_word_data`.
    fn smbus_process_call(&mut self, command: u8, value: u16) -> (r: Result<u16, Self::Error>)
        ensures
            old(self).leads_to(final(self)),
            ({
                let tail = old(self).since(final(self));
                &&& write_then_read(tail, word_data_frame(command, value), 2)
                &&& r == after_write(tail, word_read(tail[1]))
            }),
    {
        match self.smbus_write_word_data(command, value) {
            Err(e) => Err(e),
            Ok(()) => {
                let mut buf: [u8; 2] = [0u8; 2];
                let outcome = self.0.i2c_read(&mut buf);
                decode_word(outcome, &buf)
            },
        }
    }

    /// A write of the command and then a length-prefixed read as in
    /// `_smbus_read_block`, which is not tried if the write fails. Returns the
    /// length that the block reports for itself. Fails with `Unsupported`,
    /// and transfers nothing, where `value` leaves no room for the length
    /// byte.
    fn smbus_read_block_data(&mut self, command: u8, value: &mut [u8]) -> (r: Result<
        usize,
        Self::Error,
    >)
        ensures
            old(self).leads_to(final(self)),
            !takes_length_byte(old(value)@.len()) ==> {
                &&& r == Err::<usize, Error<I::Error>>(Error::Unsupported)
                &&& final(self).bus() == old(self).bus()
                &&& final(value)@ == old(value)@
            },
            takes_length_byte(old(value)@.len()) ==> {
                let tail = old(self).since(final(self));
                &&& write_then_read(tail, seq![command], old(value)@.len() + 1)
                &&& r == after_write(tail, block_read(tail[1]))
                &&& final(value)@ == if tail.len() == 2 {
                    block_kept(tail[1], old(value)@)
                } else {
                    old(value)@
                }
            },
    {
        if value.len() == usize::MAX {
            return Err(Error::Unsupported);
        }
        match self.smbus_write_byte(command) {
            Err(e) => Err(e),
            Ok(()) => {
                let r = self._smbus_read_block(value);
                r
            },
        }
    }

    /// One write of the frame `[command, length]` followed by `value`. Fails
    /// with `Unsupported`, and transfers nothing, where `value` holds more
    /// than `BLOCK_MAX` bytes.
    fn smbus_write_block_data(&mut self, command: u8, value: &[u8]) -> (r: Result<(), Self::Error>)
        ensures
            old(self).leads_to(final(self)),
            value@.len() > BLOCK_MAX ==> {
                &&& r == Err::<(), Error<I::Error>>(Error::Unsupported)
                &&& final(self).bus() == old(self).bus()
            },
            value@.len() <= BLOCK_MAX ==> {
                let tail = old(self).since(final(self));
                &&& one_write(tail, block_frame(command, value@))
                &&& r == tail[0].status()
            },
    {
        match encode_block(command, value) {
            None => Err(Error::Unsupported),
            Some(frame) => Error::from_transport(self.0.i2c_write(frame.as_slice())),
        }
    }
}

impl<I: ReadWrite> I2cBlock for SmbusReadWrite<I> {
    /// A write of the command and then one read into `value`, whose size is
    /// the block's length. The read is not tried if the write fails.
    fn i2c_read_block_data(&mut self, command: u8, value: &mut [u8]) -> (r: Result<
        usize,
        Self::Error,
    >)
        ensures
            old(self).leads_to(final(self)),
            ({
                let tail = old(self).since(final(self));
                &&& write_then_read(tail, seq![command], old(value)@.len())
                &&& r == after_write(tail, raw_read(tail[1]))
                &&& final(value)@ == if tail.len() == 2 {
                    raw_kept(tail[1], old(value)@)
                } else {
                    old(value)@
                }
            }),
    {
        match self.smbus_write_byte(command) {
            Err(e) => Err(e),
            Ok(()) => {
                let outcome = self.0.i2c_read(value);
                Error::from_transport(outcome)
            },
        }
    }

    /// One write of the command followed by `value`.
    fn i2c_write_block_data(&mut self, command: u8, value: &[u8]) -> (r: Result<(), Self::Error>)
        ensures
            old(self).leads_to(final(self)),
            ({
                let tail = old(self).since(final(self));
                &&& one_write(tail, raw_block_frame(command, value@))
                &&& r == tail[0].status()
            }),
    {
        let frame = encode_raw_block(command, value);
        Error::from_transport(self.0.i2c_write(frame.as_slice()))
    }
}

impl<I: ReadWrite> Smbus20 for SmbusReadWrite<I> {
    /// The write of `smbus_write_block_data` and then a length-prefixed read
    /// as in `_smbus_read_block`, which is not tried if the write fails. Fails
    /// with `Unsupported`, and transfers nothing, where `write` holds more
    /// than `BLOCK_MAX` bytes or `read` leaves no room for the length byte.
    fn smbus_process_call_block(&mut self, command: u8, write: &[u8], read: &mut [u8]) -> (r:
        Result<usize, Self::Error>)
        ensures
            old(self).leads_to(final(self)),
            write@.len() > BLOCK_MAX || !takes_length_byte(old(read)@.len()) ==> {
                &&& r == Err::<usize, Error<I::Error>>(Error::Unsupported)
                &&& final(self).bus() == old(self).bus()
                &&& final(read)@ == old(read)@
            },
            write@.len() <= BLOCK_MAX && takes_length_byte(old(read)@.len()) ==> {
                let tail = old(self).since(final(self));
                &&& write_then_read(tail, block_frame(command, write@), old(read)@.len() + 1)
                &&& r == after_write(tail, block_read(tail[1]))
                &&& final(read)@ == if tail.len() == 2 {
                    block_kept(tail[1], old(read)@)
                } else {
                    old(read)@
                }
            },
    {
        if read.len() == usize::MAX {
            return Err(Error::Unsupported);
        }
        match self.smbus_write_block_data(command, write) {
            Err(e) => Err(e),
            Ok(()) => {
                let r = self._smbus_read_block(read);
                r
            },
        }
    }
}

} // verus!
