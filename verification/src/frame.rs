//! The byte framing of the SMBus operations: what is written for each of them,
//! and what a reply means.

use vstd::prelude::*;
use crate::error::Error;

verus! {

/// The most bytes that a length-prefixed block carries.
pub const BLOCK_MAX: usize = 32;

/// The byte of a word that goes first on the wire.
pub open spec fn low_byte(value: u16) -> u8 {
    (value % 256) as u8
}

/// The byte of a word that goes second on the wire.
pub open spec fn high_byte(value: u16) -> u8 {
    (value / 256) as u8
}

/// The word whose bytes came as `low`, then `high`.
pub open spec fn word_of(low: u8, high: u8) -> u16 {
    (low + 256 * high) as u16
}

/// What writes a byte to a register.
pub open spec fn byte_data_frame(command: u8, value: u8) -> Seq<u8> {
    seq![command, value]
}

/// What writes a word to a register: the low byte first.
pub open spec fn word_data_frame(command: u8, value: u16) -> Seq<u8> {
    seq![command, low_byte(value), high_byte(value)]
}

/// What writes a block to a register, its length in front.
pub open spec fn block_frame(command: u8, data: Seq<u8>) -> Seq<u8>
    recommends
        data.len() <= BLOCK_MAX,
{
    seq![command, data.len() as u8] + data
}

/// What writes a block to a register when the transfer's own size is its length.
pub open spec fn raw_block_frame(command: u8, data: Seq<u8>) -> Seq<u8> {
    seq![command] + data
}

/// Builds the frame that writes a byte to a register.
pub fn encode_byte_data(command: u8, value: u8) -> (frame: [u8; 2])
    ensures
        frame@ == byte_data_frame(command, value),
{
    [command, value]
}

/// Builds the frame that writes a word to a register.
pub fn encode_word_data(command: u8, value: u16) -> (frame: [u8; 3])
    ensures
        frame@ == word_data_frame(command, value),
{
    let low: u16 = value & 0xff;
    let high: u16 = value >> 8;
    assert(low == value % 256 && high == value / 256 && low < 256 && high < 256) by (bit_vector)
        requires
            low == value & 0xff,
            high == value >> 8,
    ;
    [command, low as u8, high as u8]
}

/// Builds the frame that writes a block to a register, its length in front,
/// or nothing where `data` is longer than a block may be.
pub fn encode_block(command: u8, data: &[u8]) -> (frame: Option<Vec<u8>>)
    ensures
        data@.len() > BLOCK_MAX <==> frame is None,
        frame matches Some(bytes) ==> bytes@ == block_frame(command, data@),
{
    if data.len() > BLOCK_MAX {
        return None;
    }
    let mut bytes: Vec<u8> = Vec::new();
    bytes.push(command);
    bytes.push(data.len() as u8);
    let mut i: usize = 0;
    while i < data.len()
        invariant
            i <= data@.len(),
            bytes@ == seq![command, data@.len() as u8] + data@.take(i as int),
        decreases data@.len() - i,
    {
        bytes.push(data[i]);
        i += 1;
    }
    Some(bytes)
}

/// Builds the frame that writes a block to a register without its length.
pub fn encode_raw_block(command: u8, data: &[u8]) -> (bytes: Vec<u8>)
    ensures
        bytes@ == raw_block_frame(command, data@),
{
    let mut bytes: Vec<u8> = Vec::new();
    bytes.push(command);
    let mut i: usize = 0;
    while i < data.len()
        invariant
            i <= data@.len(),
            bytes@ == seq![command] + data@.take(i as int),
        decreases data@.len() - i,
    {
        bytes.push(data[i]);
        i += 1;
    }
    bytes
}

/// What a read of one byte yields: the byte, if the transport read exactly one.
pub open spec fn byte_reply<E>(outcome: Result<usize, E>, buffer: Seq<u8>) -> Result<u8, Error<E>> {
    match outcome {
        Err(e) => Err(Error::Transport(e)),
        Ok(n) => if n == 1 && buffer.len() == 1 {
            Ok(buffer[0])
        } else {
            Err(Error::ProtocolViolation)
        },
    }
}

/// What a read of a word yields: the word, low byte first, if the transport
/// read exactly two bytes.
pub open spec fn word_reply<E>(outcome: Result<usize, E>, buffer: Seq<u8>) -> Result<u16, Error<E>> {
    match outcome {
        Err(e) => Err(Error::Transport(e)),
        Ok(n) => if n == 2 && buffer.len() == 2 {
            Ok(word_of(buffer[0], buffer[1]))
        } else {
            Err(Error::ProtocolViolation)
        },
    }
}

/// Reads the reply to a one-byte read off its buffer.
pub fn decode_byte<E>(outcome: Result<usize, E>, buffer: &[u8]) -> (r: Result<u8, Error<E>>)
    ensures
        r == byte_reply(outcome, buffer@),
{
    match outcome {
        Err(e) => Err(Error::Transport(e)),
        Ok(n) => if n == 1 && buffer.len() == 1 {
            Ok(buffer[0])
        } else {
            Err(Error::ProtocolViolation)
        },
    }
}

/// Reads the reply to a two-byte read off its buffer.
pub fn decode_word<E>(outcome: Result<usize, E>, buffer: &[u8]) -> (r: Result<u16, Error<E>>)
    ensures
        r == word_reply(outcome, buffer@),
{
    match outcome {
        Err(e) => Err(Error::Transport(e)),
        Ok(n) => if n == 2 && buffer.len() == 2 {
            let low: u8 = buffer[0];
            let high: u8 = buffer[1];
            let word: u16 = (low as u16) | ((high as u16) << 8);
            assert(word == low + 256 * high) by (bit_vector)
                requires
                    word == (low as u16) | ((high as u16) << 8),
            ;
            Ok(word)
        } else {
            Err(Error::ProtocolViolation)
        },
    }
}

/// `old` with its first `count` bytes replaced by those of `fresh`.
pub open spec fn overlay(old: Seq<u8>, fresh: Seq<u8>, count: int) -> Seq<u8>
    recommends
        0 <= count <= old.len(),
        count <= fresh.len(),
{
    fresh.take(count) + old.skip(count)
}

/// How many bytes of a length-prefixed reply reach the caller's buffer: no more
/// than the reply reports, than came behind the length byte, or than the buffer
/// holds.
pub open spec fn block_take(reported: int, received: int, capacity: int) -> int {
    let came = received - 1;
    let most = if reported <= came {
        reported
    } else {
        came
    };
    let most = if most <= capacity {
        most
    } else {
        capacity
    };
    if most < 0 {
        0
    } else {
        most
    }
}

/// What a length-prefixed read yields: the length that the reply itself
/// reports in its first byte, whatever part of the data could be handed on.
pub open spec fn block_reply<E>(outcome: Result<usize, E>, scratch: Seq<u8>) -> Result<
    usize,
    Error<E>,
> {
    match outcome {
        Err(e) => Err(Error::Transport(e)),
        Ok(_) => Ok(scratch[0] as usize),
    }
}

/// What a length-prefixed read leaves in the caller's buffer, which held
/// `value`: the data behind the length byte, as far as `block_take` allows.
pub open spec fn block_data<E>(outcome: Result<usize, E>, scratch: Seq<u8>, value: Seq<u8>) -> Seq<
    u8,
> {
    match outcome {
        Err(_) => value,
        Ok(n) => overlay(
            value,
            scratch.skip(1),
            block_take(scratch[0] as int, n as int, value.len() as int),
        ),
    }
}

/// Copies `count` bytes of `source`, from index `from` on, over the start of
/// `target`.
pub fn copy_front(target: &mut [u8], source: &[u8], from: usize, count: usize)
    requires
        count <= old(target)@.len(),
        from + count <= source@.len(),
    ensures
        final(target)@ == overlay(old(target)@, source@.skip(from as int), count as int),
{
    let available: usize = source.len();
    let mut i: usize = 0;
    while i < count
        invariant
            i <= count,
            count <= target@.len(),
            from + count <= source@.len() == available,
            target@.len() == old(target)@.len(),
            forall|j: int| 0 <= j < i ==> target@[j] == source@[from + j],
            forall|j: int| i <= j < target@.len() ==> target@[j] == old(target)@[j],
        decreases count - i,
    {
        target[i] = source[from + i];
        i += 1;
    }
}

/// Reads the reply to a length-prefixed read off `scratch`, the buffer that
/// the transport filled, and hands its data on into `value`.
pub fn decode_block<E>(outcome: Result<usize, E>, scratch: &[u8], value: &mut [u8]) -> (r: Result<
    usize,
    Error<E>,
>)
    requires
        scratch@.len() == old(value)@.len() + 1,
    ensures
        r == block_reply(outcome, scratch@),
        final(value)@ == block_data(outcome, scratch@, old(value)@),
{
    match outcome {
        Err(e) => Err(Error::Transport(e)),
        Ok(received) => {
            let reported: usize = scratch[0] as usize;
            let came: usize = if received == 0 {
                0
            } else {
                received - 1
            };
            let mut count: usize = if reported <= came {
                reported
            } else {
                came
            };
            if count > value.len() {
                count = value.len();
            }
            copy_front(value, scratch, 1, count);
            Ok(reported)
        },
    }
}

/// Little-endian framing loses nothing: the bytes that `word_data_frame` puts
/// behind the command are `value % 256` and then `value / 256`, and a
/// two-byte reply made of them is read as `value` again.
pub proof fn lemma_word_round_trip<E>(command: u8, value: u16)
    ensures
        word_data_frame(command, value).len() == 3,
        word_data_frame(command, value)[0] == command,
        word_data_frame(command, value)[1] == value % 256,
        word_data_frame(command, value)[2] == value / 256,
        word_of(low_byte(value), high_byte(value)) == value,
        word_reply::<E>(Ok(2), word_data_frame(command, value).skip(1)) == Ok::<u16, Error<E>>(value),
{
}

} // verus!
