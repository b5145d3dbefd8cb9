//! Register map of the sound-pressure-level sensor.
//!
//! Every register is one byte wide and is addressed by the first payload
//! byte of a bus transaction.  Multi-byte values (the device id and the
//! averaging time) occupy consecutive addresses, most significant byte
//! first, and the device auto-increments its internal pointer while a
//! transaction is in flight.

use vstd::prelude::*;

verus! {

/// Default I2C address of the sensor.
pub const DEVICE_ADDR_DEFAULT: u8 = 0x48;

/// VERSION register address.
pub const REG_VERSION: u8 = 0x00;
/// First DEVICE ID register address (ID3); ID2, ID1 and ID0 follow at
/// 0x02, 0x03 and 0x04, most significant byte first.
pub const REG_DEVICE_ID: u8 = 0x01;
/// SCRATCH register address.
pub const REG_SCRATCH: u8 = 0x05;
/// CONTROL register address.
pub const REG_CONTROL: u8 = 0x06;
/// CONTROL register default value.
pub const REG_CONTROL_DEFAULT: u8 = 0x02;
/// TAVG register high byte address; the low byte follows at 0x08.
pub const REG_TAVG_HIGH: u8 = 0x07;
/// Default value for averaging time in ms.
pub const REG_AVERAGING_TIME_DEFAULT_MS: u16 = 1000;
/// RESET register address.
pub const REG_RESET: u8 = 0x09;
/// RESET register default value.
pub const REG_RESET_DEFAULT: u8 = 0x00;
/// DECIBEL register address.
pub const REG_DECIBEL: u8 = 0x0a;
/// MAX register address.
pub const REG_MAX: u8 = 0x0c;
/// MIN register address.
pub const REG_MIN: u8 = 0x0d;
/// GAIN register address (meaningful on external-microphone modules only).
pub const REG_GAIN: u8 = 0x0f;

} // verus!
