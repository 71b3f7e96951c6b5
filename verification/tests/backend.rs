use i2c::stream::{written_in_full, Truncated};
use i2c::{Address, Addressings, Error, I2cDev, Master, ReadWrite, Trace};

/// What stands for a device without 10-bit addressing, as the Linux one is:
/// it keeps the address it was given and counts the transfers that reach it.
struct Device {
    address: Option<u16>,
    transfers: usize,
}

/// The device as a master, by the rules of `I2cDev`.
struct Probe(I2cDev<Device>);

impl Probe {
    fn device(&mut self) -> &mut Device {
        &mut (self.0).0
    }
}

impl Master for Probe {
    type Error = Error<u8>;

    fn transfers(&self) -> Trace<Error<u8>> {
        unreachable!()
    }

    fn unsupported(_error: Error<u8>) -> bool {
        unreachable!()
    }
}

impl ReadWrite for Probe {
    fn i2c_read(&mut self, value: &mut [u8]) -> Result<usize, Error<u8>> {
        self.device().transfers += 1;
        Ok(value.len())
    }

    fn i2c_write(&mut self, _value: &[u8]) -> Result<(), Error<u8>> {
        self.device().transfers += 1;
        Ok(())
    }
}

impl Address for Probe {
    fn slave(&self) -> Option<(u16, bool)> {
        unreachable!()
    }

    fn tenbit(&self) -> bool {
        unreachable!()
    }

    fn addressings(&self) -> Addressings<Error<u8>> {
        unreachable!()
    }

    fn set_slave_address(&mut self, addr: u16, tenbit: bool) -> Result<(), Error<u8>> {
        let addr = I2cDev::<Device>::slave_address(addr, tenbit)?;
        self.device().address = Some(addr);
        Ok(())
    }
}

#[test]
fn tenbit_address_is_unsupported_and_transfers_nothing() {
    let mut dev = Probe(I2cDev(Device { address: None, transfers: 0 }));
    assert_eq!(dev.set_slave_address(0x123, true), Err(Error::Unsupported));
    assert_eq!(dev.device().address, None);
    assert_eq!(dev.device().transfers, 0);

    assert_eq!(dev.set_slave_address(0x23, false), Ok(()));
    assert_eq!(dev.device().address, Some(0x23));
    assert_eq!(dev.i2c_write(&[1]), Ok(()));
    assert_eq!(dev.device().transfers, 1);

    assert_eq!(dev.set_slave_address(0x24, true), Err(Error::Unsupported));
    assert_eq!(dev.device().address, Some(0x23));
    assert_eq!(dev.device().transfers, 1);
}

#[test]
fn slave_address_passes_plain_addresses() {
    assert_eq!(I2cDev::<()>::slave_address::<u8>(0, false), Ok(0));
    assert_eq!(I2cDev::<()>::slave_address::<u8>(0x7f, false), Ok(0x7f));
    assert_eq!(I2cDev::<()>::slave_address::<u8>(0xffff, false), Ok(0xffff));
    assert_eq!(I2cDev::<()>::slave_address::<u8>(0, true), Err(Error::Unsupported));
    assert_eq!(I2cDev::<()>::slave_address::<u8>(0x3ff, true), Err(Error::Unsupported));
}

#[test]
fn map_buffer_reports_the_whole_length() {
    let mut value = [0u8; 3];
    assert_eq!(I2cDev::<()>::map_buffer(vec![1, 2, 3, 4, 5], &mut value), 5);
    assert_eq!(value, [1, 2, 3]);

    let mut value = [9u8; 4];
    assert_eq!(I2cDev::<()>::map_buffer(vec![1, 2], &mut value), 2);
    assert_eq!(value, [1, 2, 9, 9]);

    let mut value = [9u8; 2];
    assert_eq!(I2cDev::<()>::map_buffer(vec![], &mut value), 0);
    assert_eq!(value, [9, 9]);

    let mut value = [0u8; 0];
    assert_eq!(I2cDev::<()>::map_buffer(vec![1], &mut value), 1);

    let mut value = [0u8; 2];
    assert_eq!(I2cDev::<()>::map_buffer(vec![7, 8], &mut value), 2);
    assert_eq!(value, [7, 8]);
}

#[test]
fn block_len_stops_at_the_block_size() {
    assert_eq!(I2cDev::<()>::block_len::<u8>(0), Ok(0));
    assert_eq!(I2cDev::<()>::block_len::<u8>(1), Ok(1));
    assert_eq!(I2cDev::<()>::block_len::<u8>(32), Ok(32));
    assert_eq!(I2cDev::<()>::block_len::<u8>(33), Err(Error::Unsupported));
    assert_eq!(I2cDev::<()>::block_len::<u8>(256), Err(Error::Unsupported));
    assert_eq!(I2cDev::<()>::block_len::<u8>(usize::MAX), Err(Error::Unsupported));
}

#[test]
fn request_len_is_the_low_byte_of_the_length() {
    assert_eq!(I2cDev::<()>::request_len(0), 0);
    assert_eq!(I2cDev::<()>::request_len(1), 1);
    assert_eq!(I2cDev::<()>::request_len(32), 32);
    assert_eq!(I2cDev::<()>::request_len(33), 33);
    assert_eq!(I2cDev::<()>::request_len(255), 255);
    assert_eq!(I2cDev::<()>::request_len(256), 0);
    assert_eq!(I2cDev::<()>::request_len(300), 44);
    assert_eq!(I2cDev::<()>::request_len(usize::MAX), 255);
}

#[test]
fn write_is_done_only_when_all_was_taken() {
    assert_eq!(written_in_full(0, 0), Ok(()));
    assert_eq!(written_in_full(5, 5), Ok(()));
    assert_eq!(written_in_full(3, 5), Err(Truncated { written: 3 }));
    assert_eq!(written_in_full(0, 1), Err(Truncated { written: 0 }));
    assert_eq!(written_in_full(6, 5), Err(Truncated { written: 6 }));
}

#[test]
fn transport_errors_are_marked() {
    assert_eq!(Error::<u8>::from_transport(Ok::<u16, u8>(3)), Ok(3));
    assert_eq!(Error::<u8>::from_transport(Err::<u16, u8>(4)), Err(Error::Transport(4)));
}
