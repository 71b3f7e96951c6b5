use i2c::{ReadFlags, WriteFlags};

#[test]
fn read_flag_bits_keep_their_numbers() {
    assert_eq!(ReadFlags::RECEIVE_LEN, 0x01);
    assert_eq!(ReadFlags::NACK, 0x02);
    assert_eq!(ReadFlags::REVERSE_RW, 0x04);
    assert_eq!(ReadFlags::NO_START, 0x08);
    assert_eq!(ReadFlags::STOP, 0x10);
    assert_eq!(ReadFlags::ALL, 0x1f);
    assert_eq!(ReadFlags::all().bits(), 0x1f);
}

#[test]
fn write_flag_bits_keep_their_numbers() {
    assert_eq!(WriteFlags::IGNORE_NACK, 0x01);
    assert_eq!(WriteFlags::REVERSE_RW, 0x02);
    assert_eq!(WriteFlags::NO_START, 0x04);
    assert_eq!(WriteFlags::STOP, 0x08);
    assert_eq!(WriteFlags::ALL, 0x0f);
    assert_eq!(WriteFlags::all().bits(), 0x0f);
}

#[test]
fn empty_and_default_hold_no_flag() {
    assert_eq!(ReadFlags::empty().bits(), 0);
    assert_eq!(WriteFlags::empty().bits(), 0);
    assert_eq!(ReadFlags::default(), ReadFlags::empty());
    assert_eq!(WriteFlags::default(), WriteFlags::empty());
    assert!(ReadFlags::empty().is_empty());
    assert!(WriteFlags::default().is_empty());
    assert!(!ReadFlags::all().is_empty());
}

#[test]
fn from_bits_refuses_unknown_bits() {
    assert_eq!(ReadFlags::from_bits(0x20), None);
    assert_eq!(ReadFlags::from_bits(0x8001), None);
    assert_eq!(WriteFlags::from_bits(0x10), None);
    assert_eq!(ReadFlags::from_bits(0x1f).map(|f| f.bits()), Some(0x1f));
    assert_eq!(ReadFlags::from_bits(0x12).map(|f| f.bits()), Some(0x12));
    assert_eq!(WriteFlags::from_bits(0x0c).map(|f| f.bits()), Some(0x0c));
    assert_eq!(WriteFlags::from_bits(0).map(|f| f.bits()), Some(0));
}

#[test]
fn from_bits_truncate_drops_unknown_bits() {
    assert_eq!(ReadFlags::from_bits_truncate(0xffff).bits(), 0x1f);
    assert_eq!(ReadFlags::from_bits_truncate(0x28).bits(), 0x08);
    assert_eq!(WriteFlags::from_bits_truncate(0xffff).bits(), 0x0f);
    assert_eq!(WriteFlags::from_bits_truncate(0x14).bits(), 0x04);
}

#[test]
fn flags_combine_as_sets() {
    let nack = ReadFlags::from_bits_truncate(ReadFlags::NACK);
    let stop = ReadFlags::from_bits_truncate(ReadFlags::STOP);
    let both = nack.union(stop);
    assert_eq!(both.bits(), 0x12);
    assert!(both.contains(nack));
    assert!(both.contains(stop));
    assert!(!nack.contains(both));
    assert!(both.contains(ReadFlags::empty()));
    assert!(both.intersects(stop));
    assert!(!nack.intersects(stop));
    assert_eq!(both.intersection(stop), stop);
    assert_eq!(nack.intersection(stop), ReadFlags::empty());

    let ignore = WriteFlags::from_bits_truncate(WriteFlags::IGNORE_NACK);
    let no_start = WriteFlags::from_bits_truncate(WriteFlags::NO_START);
    let both = ignore.union(no_start);
    assert_eq!(both.bits(), 0x05);
    assert!(both.contains(no_start));
    assert!(!ignore.contains(no_start));
    assert!(both.intersects(ignore));
    assert_eq!(both.intersection(no_start), no_start);
}

#[test]
fn insert_and_remove_change_a_set_in_place() {
    let mut flags = ReadFlags::empty();
    flags.insert(ReadFlags::from_bits_truncate(ReadFlags::RECEIVE_LEN | ReadFlags::NO_START));
    assert_eq!(flags.bits(), 0x09);
    flags.insert(ReadFlags::from_bits_truncate(ReadFlags::NO_START | ReadFlags::STOP));
    assert_eq!(flags.bits(), 0x19);
    flags.remove(ReadFlags::from_bits_truncate(ReadFlags::RECEIVE_LEN | ReadFlags::NACK));
    assert_eq!(flags.bits(), 0x18);

    let mut flags = WriteFlags::all();
    flags.remove(WriteFlags::from_bits_truncate(WriteFlags::STOP));
    assert_eq!(flags.bits(), 0x07);
    flags.insert(WriteFlags::from_bits_truncate(WriteFlags::STOP));
    assert_eq!(flags, WriteFlags::all());
}

#[test]
fn requested_flags_are_masked_by_support() {
    let supported = WriteFlags::from_bits_truncate(WriteFlags::NO_START | WriteFlags::STOP);
    let requested = WriteFlags::from_bits_truncate(WriteFlags::IGNORE_NACK | WriteFlags::STOP);
    assert_eq!(requested.intersection(supported).bits(), WriteFlags::STOP);
}
