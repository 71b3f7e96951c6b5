use i2c::frame::{
    copy_front, decode_block, decode_byte, decode_word, encode_block, encode_byte_data,
    encode_raw_block, encode_word_data, BLOCK_MAX,
};
use i2c::Error;

#[test]
fn block_max_is_thirty_two() {
    assert_eq!(BLOCK_MAX, 32);
}

#[test]
fn byte_data_frame_is_command_then_value() {
    assert_eq!(encode_byte_data(0x12, 0x34), [0x12, 0x34]);
    assert_eq!(encode_byte_data(0xff, 0x00), [0xff, 0x00]);
}

#[test]
fn word_data_frame_is_command_low_high() {
    assert_eq!(encode_word_data(0x01, 0x1234), [0x01, 0x34, 0x12]);
    assert_eq!(encode_word_data(0x01, 0x00ff), [0x01, 0xff, 0x00]);
    assert_eq!(encode_word_data(0x01, 0xff00), [0x01, 0x00, 0xff]);
    assert_eq!(encode_word_data(0x01, 0), [0x01, 0, 0]);
    assert_eq!(encode_word_data(0xfe, 0xffff), [0xfe, 0xff, 0xff]);
}

#[test]
fn block_frame_carries_its_length() {
    assert_eq!(encode_block(9, &[]), Some(vec![9, 0]));
    assert_eq!(encode_block(9, &[4, 5, 6]), Some(vec![9, 3, 4, 5, 6]));
    let full = [0x5au8; 32];
    let frame = encode_block(9, &full).unwrap();
    assert_eq!(frame.len(), 34);
    assert_eq!(frame[..2], [9, 32]);
    assert_eq!(frame[2..], full);
    assert_eq!(encode_block(9, &[0u8; 33]), None);
    assert_eq!(encode_block(9, &[0u8; 256]), None);
}

#[test]
fn raw_block_frame_is_command_then_data() {
    assert_eq!(encode_raw_block(9, &[]), vec![9]);
    assert_eq!(encode_raw_block(9, &[4, 5, 6]), vec![9, 4, 5, 6]);
    assert_eq!(encode_raw_block(1, &[2u8; 100]).len(), 101);
}

#[test]
fn decode_byte_wants_exactly_one_byte() {
    assert_eq!(decode_byte::<u8>(Ok(1), &[0x42]), Ok(0x42));
    assert_eq!(decode_byte::<u8>(Ok(0), &[0x42]), Err(Error::ProtocolViolation));
    assert_eq!(decode_byte::<u8>(Ok(2), &[0x42]), Err(Error::ProtocolViolation));
    assert_eq!(decode_byte::<u8>(Ok(1), &[]), Err(Error::ProtocolViolation));
    assert_eq!(decode_byte::<u8>(Ok(1), &[1, 2]), Err(Error::ProtocolViolation));
    assert_eq!(decode_byte(Err(3u8), &[0x42]), Err(Error::Transport(3)));
}

#[test]
fn decode_word_wants_exactly_two_bytes() {
    assert_eq!(decode_word::<u8>(Ok(2), &[0x34, 0x12]), Ok(0x1234));
    assert_eq!(decode_word::<u8>(Ok(2), &[0xff, 0x00]), Ok(0x00ff));
    assert_eq!(decode_word::<u8>(Ok(2), &[0x00, 0x80]), Ok(0x8000));
    assert_eq!(decode_word::<u8>(Ok(1), &[0x34, 0x12]), Err(Error::ProtocolViolation));
    assert_eq!(decode_word::<u8>(Ok(0), &[0x34, 0x12]), Err(Error::ProtocolViolation));
    assert_eq!(decode_word::<u8>(Ok(3), &[0x34, 0x12]), Err(Error::ProtocolViolation));
    assert_eq!(decode_word::<u8>(Ok(2), &[0x34]), Err(Error::ProtocolViolation));
    assert_eq!(decode_word(Err("bus"), &[0x34, 0x12]), Err(Error::Transport("bus")));
}

#[test]
fn word_frame_read_back_is_the_word() {
    let mut value: u16 = 0;
    loop {
        let frame = encode_word_data(0x77, value);
        assert_eq!(frame[1] as u16, value % 256);
        assert_eq!(frame[2] as u16, value / 256);
        assert_eq!(decode_word::<()>(Ok(2), &frame[1..]), Ok(value));
        if value == u16::MAX {
            break;
        }
        value += 1;
    }
}

#[test]
fn copy_front_overlays_the_start() {
    let mut target = [0u8; 5];
    copy_front(&mut target, &[1, 2, 3, 4], 1, 2);
    assert_eq!(target, [2, 3, 0, 0, 0]);
    copy_front(&mut target, &[9, 8, 7, 6, 5], 0, 5);
    assert_eq!(target, [9, 8, 7, 6, 5]);
    copy_front(&mut target, &[1], 1, 0);
    assert_eq!(target, [9, 8, 7, 6, 5]);
}

#[test]
fn decode_block_takes_the_least_of_three() {
    // As much as the buffer holds.
    let mut value = [0u8; 3];
    assert_eq!(decode_block::<u8>(Ok(4), &[5, 0xaa, 0xbb, 0xcc], &mut value), Ok(5));
    assert_eq!(value, [0xaa, 0xbb, 0xcc]);
    // As much as the block reports.
    let mut value = [7u8; 3];
    assert_eq!(decode_block::<u8>(Ok(4), &[1, 0xaa, 0xbb, 0xcc], &mut value), Ok(1));
    assert_eq!(value, [0xaa, 7, 7]);
    // As much as came behind the length byte.
    let mut value = [7u8; 3];
    assert_eq!(decode_block::<u8>(Ok(2), &[3, 0xaa, 0xbb, 0xcc], &mut value), Ok(3));
    assert_eq!(value, [0xaa, 7, 7]);
    // Nothing where nothing came.
    let mut value = [7u8; 3];
    assert_eq!(decode_block::<u8>(Ok(0), &[3, 0xaa, 0xbb, 0xcc], &mut value), Ok(3));
    assert_eq!(value, [7, 7, 7]);
    let mut value = [7u8; 3];
    assert_eq!(decode_block::<u8>(Ok(1), &[3, 0xaa, 0xbb, 0xcc], &mut value), Ok(3));
    assert_eq!(value, [7, 7, 7]);
    // An empty block.
    let mut value = [7u8; 3];
    assert_eq!(decode_block::<u8>(Ok(4), &[0, 0xaa, 0xbb, 0xcc], &mut value), Ok(0));
    assert_eq!(value, [7, 7, 7]);
    // An empty buffer.
    let mut value = [0u8; 0];
    assert_eq!(decode_block::<u8>(Ok(1), &[200], &mut value), Ok(200));
}

#[test]
fn decode_block_hands_on_the_error() {
    let mut value = [7u8; 2];
    assert_eq!(decode_block(Err(4u8), &[2, 1, 2], &mut value), Err(Error::Transport(4)));
    assert_eq!(value, [7, 7]);
}
