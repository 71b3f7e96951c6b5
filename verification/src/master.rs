//! The capabilities of an I2C master, one trait each.
//!
//! A master is whatever set of these traits it implements. Their functions in
//! `spec` mode are the state that the contracts speak of. They exist in proofs
//! only: an implementation that is not itself verified gives each a body that
//! is never run.

use vstd::prelude::*;
use crate::flags::{ReadFlags, WriteFlags};
use crate::message::{legs, views, Message, Transactions};
use crate::transfer::{Addressing, Addressings, Trace, Transfer};

verus! {

/// Indicates an ability to communicate with the I2C protocol.
pub trait Master {
    /// The error type returned by I2C operations.
    type Error;

    /// Every isolated transfer that this master has been asked for, oldest
    /// first.
    spec fn transfers(&self) -> Trace<Self::Error>;

    /// Whether `error` says that the master lacks what was asked of it, rather
    /// than that the bus or the device failed.
    spec fn unsupported(error: Self::Error) -> bool;
}

/// An I2C master can address different slaves on an I2C bus.
pub trait Address: Master {
    /// The slave that transfers go to, with whether its address is a 10-bit
    /// one, once an address was set.
    spec fn slave(&self) -> Option<(u16, bool)>;

    /// Whether this master can address a slave by 10 bits.
    spec fn tenbit(&self) -> bool;

    /// Every request to address a slave that this master got, oldest first,
    /// each with its outcome.
    spec fn addressings(&self) -> Addressings<Self::Error>;

    /// Sets the current slave to address.
    ///
    /// This should *not* be shifted to include the read/write bit, and
    /// therefore should be only 7 bits wide normally. A master without 10-bit
    /// addressing fails with an error that is `unsupported` when `tenbit` is
    /// set, and goes on addressing the slave it addressed before. Nothing is
    /// transferred either way.
    fn set_slave_address(&mut self, addr: u16, tenbit: bool) -> (r: Result<(), Self::Error>)
        ensures
            final(self).addressings() == old(self).addressings().push(
                Addressing { addr, tenbit, done: r },
            ),
            tenbit && !old(self).tenbit() ==> (r matches Err(e) && Self::unsupported(e)),
            tenbit && !old(self).tenbit() ==> final(self).slave() == old(self).slave(),
            r is Ok ==> final(self).slave() == Some((addr, tenbit)),
            final(self).tenbit() == old(self).tenbit(),
            final(self).transfers() == old(self).transfers(),
    ;
}

/// An I2C master that can do isolated reads and writes.
pub trait ReadWrite: Master {
    /// Initiate an isolated read transfer on the I2C bus, followed by a STOP.
    /// Returns the number of bytes read into `value`.
    fn i2c_read(&mut self, value: &mut [u8]) -> (r: Result<usize, Self::Error>)
        ensures
            final(value)@.len() == old(value)@.len(),
            final(self).transfers() == old(self).transfers().push(
                Transfer::Read { buffer: final(value)@, count: r },
            ),
    ;

    /// Initiate an isolated write transfer on the I2C bus, followed by a STOP.
    fn i2c_write(&mut self, value: &[u8]) -> (r: Result<(), Self::Error>)
        ensures
            final(self).transfers() == old(self).transfers().push(
                Transfer::Write { data: value@, done: r },
            ),
    ;
}

/// SMBus operations
pub trait Smbus: Master {
    /// Sends a single bit to the device, in the place of the rd/wr address bit.
    fn smbus_write_quick(&mut self, value: bool) -> (r: Result<(), Self::Error>);

    /// Reads a single byte from a device without specifying a register.
    fn smbus_read_byte(&mut self) -> (r: Result<u8, Self::Error>);

    /// Sends a single byte to the device
    fn smbus_write_byte(&mut self, value: u8) -> (r: Result<(), Self::Error>);

    /// Reads a byte from the designated register.
    fn smbus_read_byte_data(&mut self, command: u8) -> (r: Result<u8, Self::Error>);

    /// Writes a byte to the designated register.
    fn smbus_write_byte_data(&mut self, command: u8, value: u8) -> (r: Result<(), Self::Error>);

    /// Reads a 16-bit word from the designated register.
    fn smbus_read_word_data(&mut self, command: u8) -> (r: Result<u16, Self::Error>);

    /// Writes a 16-bit word to the designated register.
    fn smbus_write_word_data(&mut self, command: u8, value: u16) -> (r: Result<(), Self::Error>);

    /// Writes a 16-bit word to the specified register, then reads a 16-bit word
    /// in response.
    fn smbus_process_call(&mut self, command: u8, value: u16) -> (r: Result<u16, Self::Error>);

    /// Reads up to 32 bytes from the designated device register.
    ///
    /// Returns the number of bytes read, which may be larger than `value.len()`
    /// if the read was truncated.
    fn smbus_read_block_data(&mut self, command: u8, value: &mut [u8]) -> (r: Result<
        usize,
        Self::Error,
    >)
        ensures
            final(value)@.len() == old(value)@.len(),
    ;

    /// Writes up to 32 bytes to the designated device register.
    fn smbus_write_block_data(&mut self, command: u8, value: &[u8]) -> (r: Result<(), Self::Error>);
}

/// SMBus 2.0 operations
pub trait Smbus20: Smbus {
    /// Sends up to 31 bytes of data to the designated register, and reads up to
    /// 31 bytes in return.
    ///
    /// Returns the number of bytes read, which may be larger than `read.len()`
    /// if the read was truncated.
    fn smbus_process_call_block(&mut self, command: u8, write: &[u8], read: &mut [u8]) -> (r:
        Result<usize, Self::Error>)
        ensures
            final(read)@.len() == old(read)@.len(),
    ;
}

/// SMBus Packet Error Checking
pub trait SmbusPec: Smbus {
    /// Whether transfers carry a checksum.
    spec fn pec(&self) -> bool;

    /// Enables or disables SMBus Packet Error Checking. Nothing is
    /// transferred.
    fn smbus_set_pec(&mut self, pec: bool) -> (r: Result<(), Self::Error>)
        ensures
            r is Ok ==> final(self).pec() == pec,
            final(self).transfers() == old(self).transfers(),
    ;
}

/// Basic I2C transfer without including length prefixes associated with SMBus.
pub trait I2cBlock: Master {
    /// Reads a block of bytes from the designated device register.
    ///
    /// Unlike `smbus_read_block_data` this does not receive a data length.
    fn i2c_read_block_data(&mut self, command: u8, value: &mut [u8]) -> (r: Result<
        usize,
        Self::Error,
    >)
        ensures
            final(value)@.len() == old(value)@.len(),
    ;

    /// Writes a block of bytes to the designated device register.
    ///
    /// Unlike `smbus_write_block_data` this does not transfer the data length.
    fn i2c_write_block_data(&mut self, command: u8, value: &[u8]) -> (r: Result<(), Self::Error>);
}

/// Advanced I2C transfer queues that support repeated START operations.
pub trait BulkTransfer: Master {
    /// The flags that this master honours, for reads and for writes.
    spec fn support(&self) -> (ReadFlags, WriteFlags);

    /// Every combined transaction that went through, oldest first, each as the
    /// bus carried it.
    spec fn transactions(&self) -> Transactions;

    /// Specifies the flags that this implementation supports. The answer is
    /// `support`, which no operation of this trait changes, and asking
    /// transfers nothing.
    fn i2c_transfer_support(&mut self) -> (r: Result<(ReadFlags, WriteFlags), Self::Error>)
        ensures
            answers_support(old(self).support(), final(self).support(), r),
            final(self).transactions() == old(self).transactions(),
            final(self).transfers() == old(self).transfers(),
    ;

    /// Executes a queue of I2C transfers, separated by repeated START
    /// conditions. Data buffers are truncated to the actual read length on
    /// completion.
    ///
    /// The messages go out in their order. A START precedes the first, and
    /// each later one that does not set `NO_START`; a STOP follows the last,
    /// and each earlier one that sets `STOP`. Which flags and addresses are
    /// legal is for the master to say, by its error.
    fn i2c_transfer(&mut self, messages: &mut [Message]) -> (r: Result<(), Self::Error>)
        ensures
            final(messages)@.len() == old(messages)@.len(),
            forall|i: int|
                0 <= i < old(messages)@.len() ==> (#[trigger] final(messages)@[i])@.completes(
                    old(messages)@[i]@,
                ),
            final(self).support() == old(self).support(),
            r is Ok ==> final(self).transactions() == old(self).transactions().push(
                legs(views(old(messages)@), views(final(messages)@)),
            ),
    ;
}

/// `answer` is what a master that honours the flags `held` says of the flags
/// it supports, and `kept` are the flags it honours once it has said so.
pub open spec fn answers_support<E>(
    held: (ReadFlags, WriteFlags),
    kept: (ReadFlags, WriteFlags),
    answer: Result<(ReadFlags, WriteFlags), E>,
) -> bool {
    &&& answer matches Ok(flags) ==> flags == held
    &&& kept == held
}

/// Asking twice for the supported flags, with nothing done to the master in
/// between, gives the same flags twice.
pub proof fn lemma_support_is_stable<B: BulkTransfer>(
    before: &B,
    between: &B,
    after: &B,
    first: Result<(ReadFlags, WriteFlags), B::Error>,
    second: Result<(ReadFlags, WriteFlags), B::Error>,
)
    requires
        answers_support(before.support(), between.support(), first),
        answers_support(between.support(), after.support(), second),
        first is Ok,
        second is Ok,
    ensures
        first->Ok_0 == second->Ok_0,
{
}

} // verus!
