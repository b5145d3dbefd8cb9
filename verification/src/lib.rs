//! Driver for a sound-pressure-level sensor that exposes its register file
//! over a byte-oriented two-wire bus.
//!
//! The crate is organised around three layers:
//!
//! * [`registers`] — the fixed register map of the device;
//! * [`control`] and [`reset`] — pure bitfield codecs for the packed
//!   CONTROL and RESET registers;
//! * [`driver`] — the [`driver::PaSpl`] facade, which exclusively owns a
//!   bus handle (any implementation of [`bus::I2cBus`]) and exposes one
//!   semantic operation per register or register group.
//!
//! Every bus transaction a driver issues is recorded in the ghost
//! transaction log of its bus handle, so the contracts state exactly which
//! bytes each operation puts on the wire.  [`mock::MockBus`] is a verified
//! in-memory bus used by the test suite.

pub mod bus;
pub mod control;
pub mod driver;
pub mod mock;
pub mod registers;
pub mod reset;

pub use bus::I2cBus;
pub use bus::Transaction;
pub use control::ControlRegister;
pub use control::FilterSetting;
pub use control::MicVariant;
pub use driver::Error;
pub use driver::PaSpl;
pub use mock::MockBus;
pub use mock::MockBusError;
pub use mock::MockTransaction;
pub use registers::DEVICE_ADDR_DEFAULT;
pub use registers::REG_AVERAGING_TIME_DEFAULT_MS;
pub use registers::REG_CONTROL_DEFAULT;
pub use registers::REG_RESET_DEFAULT;
pub use reset::ResetRegister;
