//! The messages of a combined transaction, and where such a transaction puts
//! its START and STOP conditions.

use vstd::prelude::*;
use crate::flags::{ReadFlags, WriteFlags};

verus! {

/// Part of a combined I2C transaction.
#[allow(inconsistent_fields)]
pub enum Message<'a> {
    /// I2C read command
    Read {
        /// The slave address of the device to read from.
        address: u16,
        /// A data buffer to read into.
        data: &'a mut [u8],
        /// Additional flags can modify the operation to work around device quirks.
        flags: ReadFlags,
    },
    /// I2C write command
    Write {
        /// The slave address of the device to write to.
        address: u16,
        /// The data to write.
        data: &'a [u8],
        /// Additional flags can modify the operation to work around device quirks.
        flags: WriteFlags,
    },
}

/// A message as contracts see it: its buffer by what it holds.
#[allow(inconsistent_fields)]
pub enum MessageView {
    /// A read into a buffer that holds `data`.
    Read { address: u16, data: Seq<u8>, flags: ReadFlags },
    /// A write of `data`.
    Write { address: u16, data: Seq<u8>, flags: WriteFlags },
}

impl MessageView {
    /// The slave that the message is for.
    pub open spec fn address(self) -> u16 {
        match self {
            MessageView::Read { address, .. } => address,
            MessageView::Write { address, .. } => address,
        }
    }

    /// What the message's buffer holds.
    pub open spec fn data(self) -> Seq<u8> {
        match self {
            MessageView::Read { data, .. } => data,
            MessageView::Write { data, .. } => data,
        }
    }

    /// The message asks that no START be put in front of it.
    pub open spec fn no_start(self) -> bool {
        match self {
            MessageView::Read { flags, .. } => flags.has(ReadFlags::NO_START),
            MessageView::Write { flags, .. } => flags.has(WriteFlags::NO_START),
        }
    }

    /// The message asks for a STOP behind it.
    pub open spec fn stop(self) -> bool {
        match self {
            MessageView::Read { flags, .. } => flags.has(ReadFlags::STOP),
            MessageView::Write { flags, .. } => flags.has(WriteFlags::STOP),
        }
    }

    /// A START goes before this message: always before the first of a
    /// transaction, and before a later one unless it asks for none.
    pub open spec fn starts(self, first: bool) -> bool {
        first || !self.no_start()
    }

    /// A STOP goes behind this message: always behind the last of a
    /// transaction, and behind an earlier one only if it asks for it.
    pub open spec fn stops(self, last: bool) -> bool {
        last || self.stop()
    }

    /// `self` is what a transaction leaves of `before`: the same message, and a
    /// read buffer cut down to the bytes that were read.
    pub open spec fn completes(self, before: MessageView) -> bool {
        match (before, self) {
            (
                MessageView::Read { address: a0, data: d0, flags: f0 },
                MessageView::Read { address: a1, data: d1, flags: f1 },
            ) => a1 == a0 && f1 == f0 && d1.len() <= d0.len(),
            (
                MessageView::Write { address: a0, data: d0, flags: f0 },
                MessageView::Write { address: a1, data: d1, flags: f1 },
            ) => a1 == a0 && f1 == f0 && d1 == d0,
            _ => false,
        }
    }
}

impl<'a> View for Message<'a> {
    type V = MessageView;

    open spec fn view(&self) -> MessageView {
        match *self {
            Message::Read { address, data, flags } => MessageView::Read {
                address,
                data: data@,
                flags,
            },
            Message::Write { address, data, flags } => MessageView::Write {
                address,
                data: data@,
                flags,
            },
        }
    }
}

impl<'a> Message<'a> {
    /// Byte length of the message data buffer.
    pub fn len(&self) -> (len: usize)
        ensures
            len == self@.data().len(),
    {
        match *self {
            Message::Read { ref data, .. } => data.len(),
            Message::Write { ref data, .. } => data.len(),
        }
    }

    /// Address of the message's slave.
    pub fn address(&self) -> (address: u16)
        ensures
            address == self@.address(),
    {
        match *self {
            Message::Read { address, .. } => address,
            Message::Write { address, .. } => address,
        }
    }

    /// The data buffer of the message.
    pub fn data(&self) -> (data: &[u8])
        ensures
            data@ == self@.data(),
    {
        match *self {
            Message::Read { ref data, .. } => data,
            Message::Write { data, .. } => data,
        }
    }

    /// Whether a START goes before this message, given whether it is the first
    /// of its transaction.
    pub fn starts(&self, first: bool) -> (start: bool)
        ensures
            start == self@.starts(first),
    {
        let asks_none = match *self {
            Message::Read { ref flags, .. } => flags.contains(
                ReadFlags::from_bits_truncate(ReadFlags::NO_START),
            ),
            Message::Write { ref flags, .. } => flags.contains(
                WriteFlags::from_bits_truncate(WriteFlags::NO_START),
            ),
        };
        assert(0x08u16 & 0x1f == 0x08 && 0x04u16 & 0x0f == 0x04) by (bit_vector);
        first || !asks_none
    }

    /// Whether a STOP goes behind this message, given whether it is the last
    /// of its transaction.
    pub fn stops(&self, last: bool) -> (stop: bool)
        ensures
            stop == self@.stops(last),
    {
        let asks = match *self {
            Message::Read { ref flags, .. } => flags.contains(
                ReadFlags::from_bits_truncate(ReadFlags::STOP),
            ),
            Message::Write { ref flags, .. } => flags.contains(
                WriteFlags::from_bits_truncate(WriteFlags::STOP),
            ),
        };
        assert(0x10u16 & 0x1f == 0x10 && 0x08u16 & 0x0f == 0x08) by (bit_vector);
        last || asks
    }
}

/// One message of a transaction as the bus carried it.
pub struct Leg {
    /// A START and the address byte came first.
    pub start: bool,
    /// The direction: a read, or else a write.
    pub read: bool,
    /// The slave addressed.
    pub address: u16,
    /// The bytes that were read or written.
    pub data: Seq<u8>,
    /// A STOP came last.
    pub stop: bool,
}

/// A combined transaction as the bus carried it, message by message.
pub type Transaction = Seq<Leg>;

/// The combined transactions of a master, oldest first.
pub type Transactions = Seq<Transaction>;

/// The messages of a queue as contracts see them.
pub open spec fn views(messages: Seq<Message>) -> Seq<MessageView> {
    messages.map_values(|m: Message| m@)
}

/// What the bus carries for a queue of messages, given the queue as the
/// transaction left it: the messages in their order, each with the START and
/// STOP that its place and its flags give it.
pub open spec fn legs(before: Seq<MessageView>, after: Seq<MessageView>) -> Transaction {
    Seq::new(
        before.len(),
        |i: int|
            Leg {
                start: before[i].starts(i == 0),
                read: before[i] is Read,
                address: before[i].address(),
                data: after[i].data(),
                stop: before[i].stops(i == before.len() - 1),
            },
    )
}

/// A queue in which no message but the last asks for a STOP, and every
/// message but the first asks for no START, is one chained transaction: the
/// bus sees a START before the first message only and a STOP behind the last
/// only.
pub proof fn lemma_chained_queue_is_one_transaction(
    before: Seq<MessageView>,
    after: Seq<MessageView>,
)
    requires
        forall|i: int| 0 < i < before.len() ==> (#[trigger] before[i]).no_start(),
        forall|i: int| 0 <= i < before.len() - 1 ==> !(#[trigger] before[i]).stop(),
    ensures
        legs(before, after).len() == before.len(),
        forall|i: int|
            0 <= i < before.len() ==> ((#[trigger] legs(before, after)[i]).start <==> i == 0),
        forall|i: int|
            0 <= i < before.len() ==> ((#[trigger] legs(before, after)[i]).stop <==> i
                == before.len() - 1),
{
}

} // verus!
