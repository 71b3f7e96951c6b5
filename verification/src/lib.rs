//! Generic traits encompassing operations on an I2C bus, and an adapter that
//! builds the SMBus operations out of isolated reads and writes.
//!
//! A master is whatever set of the capability traits it implements: `Master`
//! alone says that it talks to a bus, and `Address`, `ReadWrite`, `Smbus`,
//! `Smbus20`, `SmbusPec`, `I2cBlock` and `BulkTransfer` each add operations.
//! `SmbusReadWrite` turns any `ReadWrite` into an `Smbus`, `Smbus20` and
//! `I2cBlock`, one or two isolated transfers per operation.
//!
//! Contracts speak of a master through `Master::transfers`, the list of the
//! isolated transfers that it has been asked for, each with what the transport
//! answered. What an operation puts on the bus is so part of what it promises,
//! and its result is a function of what came back.

pub mod backend;
pub mod error;
pub mod flags;
pub mod frame;
pub mod master;
pub mod message;
pub mod smbus;
pub mod stream;
pub mod transfer;

pub use backend::I2cDev;
pub use error::Error;
pub use flags::{ReadFlags, WriteFlags};
pub use frame::BLOCK_MAX;
pub use master::{Address, BulkTransfer, I2cBlock, Master, ReadWrite, Smbus, Smbus20, SmbusPec};
pub use message::{Leg, Message, MessageView, Transaction, Transactions};
pub use smbus::SmbusReadWrite;
pub use transfer::{Addressing, Addressings, Trace, Transfer};
