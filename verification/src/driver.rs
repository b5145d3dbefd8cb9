//! The driver facade.
//!
//! A [`PaSpl`] exclusively owns one bus handle and a device address, and
//! exposes one semantic operation per register or register group.  The
//! handle's ownership has two phases: while *attached* the driver may issue
//! transactions; once *released* through [`PaSpl::destroy`] every further
//! operation fails with [`Error::NoI2cInstance`] and leaves the driver
//! unchanged.  Every operation issues at most one bus transaction, never
//! retries, and surfaces the bus's own error verbatim inside
//! [`Error::I2c`].
//!
//! The contracts are stated over the bus handle's ghost transaction log
//! (see [`crate::bus`]): for each operation they give the exact bytes the
//! one transaction exchanges with the device.

use vstd::prelude::*;

use crate::bus::I2cBus;
use crate::bus::Transaction;
use crate::bus::issues_write_read;
use crate::control::ControlRegister;
use crate::control::MicVariant;
use crate::registers::DEVICE_ADDR_DEFAULT;
use crate::registers::REG_CONTROL;
use crate::registers::REG_DECIBEL;
use crate::registers::REG_DEVICE_ID;
use crate::registers::REG_GAIN;
use crate::registers::REG_MAX;
use crate::registers::REG_MIN;
use crate::registers::REG_RESET;
use crate::registers::REG_SCRATCH;
use crate::registers::REG_TAVG_HIGH;
use crate::registers::REG_VERSION;
use crate::reset::ResetRegister;

verus! {

/// A driver error.
#[derive(Debug, PartialEq)]
pub enum Error<E> {
    /// The underlying bus reported an error, carried here verbatim.
    I2c(E),
    /// An operation was attempted after the bus handle was released.
    NoI2cInstance,
    /// A multi-byte write request exceeded the supported payload size; the
    /// request was rejected before any bus activity.
    BufferOverflow,
}

/// The TAVG high byte that encodes the averaging time `ms`.
pub open spec fn spec_tavg_high_byte(ms: u16) -> u8 {
    (ms >> 8) as u8
}

/// The TAVG low byte that encodes the averaging time `ms`.
pub open spec fn spec_tavg_low_byte(ms: u16) -> u8 {
    (ms & 0xff) as u8
}

/// The averaging time reassembled from the TAVG high and low bytes.
pub open spec fn spec_combine_tavg(high: u8, low: u8) -> u16 {
    ((high as u16) << 8) | (low as u16)
}

/// Law: any averaging time survives the split into TAVG high and low bytes
/// and the reassembly from them.
pub proof fn lemma_avg_time_round_trip(ms: u16)
    ensures
        spec_combine_tavg(spec_tavg_high_byte(ms), spec_tavg_low_byte(ms)) == ms,
{
    assert(((((ms >> 8) as u8) as u16) << 8) | (((ms & 0xff) as u8) as u16) == ms)
        by (bit_vector);
}

/// Law: the TAVG bytes of a reassembled averaging time are the bytes it was
/// reassembled from.
pub proof fn lemma_tavg_bytes_round_trip(high: u8, low: u8)
    ensures
        spec_tavg_high_byte(spec_combine_tavg(high, low)) == high,
        spec_tavg_low_byte(spec_combine_tavg(high, low)) == low,
{
    assert(((((high as u16) << 8) | (low as u16)) >> 8) as u8 == high
        && ((((high as u16) << 8) | (low as u16)) & 0xff) as u8 == low) by (bit_vector);
}

/// The four DEVICE ID register bytes that encode `id`, most significant
/// first.
pub open spec fn spec_device_id_bytes(id: u32) -> Seq<u8> {
    seq![(id >> 24) as u8, (id >> 16) as u8, (id >> 8) as u8, id as u8]
}

/// A PA SPL module driver on the two-wire bus `I2C`.
///
/// The driver is the sole owner of its bus handle while attached; the
/// handle is returned to the caller by [`PaSpl::destroy`], after which
/// every register operation reports [`Error::NoI2cInstance`].
pub struct PaSpl<I2C: I2cBus> {
    i2c: Option<I2C>,
    device_addr: u8,
    variant: MicVariant,
}

impl<I2C: I2cBus> PaSpl<I2C> {
    /// The bus handle, if still attached.
    pub closed spec fn spec_bus(self) -> Option<I2C> {
        self.i2c
    }

    /// The device address used for every transaction.
    pub closed spec fn spec_device_addr(self) -> u8 {
        self.device_addr
    }

    /// The microphone variant the driver was configured for.
    pub closed spec fn spec_mic_variant(self) -> MicVariant {
        self.variant
    }

    /// Whether the driver still holds its bus handle.
    pub open spec fn attached(self) -> bool {
        self.spec_bus() is Some
    }

    /// The transaction log of the attached bus handle.
    pub open spec fn log(self) -> Seq<Transaction>
        recommends
            self.attached(),
    {
        self.spec_bus()->Some_0.transactions()
    }

    /// The driver's configuration (device address and microphone variant)
    /// is the same in `post` as in `self`.
    pub open spec fn config_preserved(self, post: Self) -> bool {
        &&& post.spec_device_addr() == self.spec_device_addr()
        &&& post.spec_mic_variant() == self.spec_mic_variant()
    }

    /// `post` is `self` after one completed write-then-read transaction
    /// that sent the register address `reg` and received `received`.
    pub open spec fn completes_read(self, post: Self, reg: u8, received: Seq<u8>) -> bool {
        &&& self.config_preserved(post)
        &&& post.attached()
        &&& post.log() == self.log().push(
            Transaction::WriteRead {
                addr: self.spec_device_addr(),
                sent: seq![reg],
                received,
            },
        )
    }

    /// `post` is `self` after one attempted write-then-read transaction
    /// that sent the register address `reg`, whatever bytes came back.
    pub open spec fn attempts_read(self, post: Self, reg: u8) -> bool {
        &&& self.config_preserved(post)
        &&& post.attached()
        &&& issues_write_read(self.log(), post.log(), self.spec_device_addr(), seq![reg])
    }

    /// `post` is `self` after exactly one write transaction of `data`.
    pub open spec fn issues_write(self, post: Self, data: Seq<u8>) -> bool {
        &&& self.config_preserved(post)
        &&& post.attached()
        &&& post.log() == self.log().push(
            Transaction::Write { addr: self.spec_device_addr(), data },
        )
    }

    /// Wraps a bus handle for a standard (onboard-microphone) module at
    /// the default device address.
    pub fn new(i2c: I2C) -> (r: Self)
        ensures
            r.attached(),
            r.log() == i2c.transactions(),
            r.spec_device_addr() == DEVICE_ADDR_DEFAULT,
            r.spec_mic_variant() == MicVariant::Onboard,
    {
        Self { i2c: Some(i2c), device_addr: DEVICE_ADDR_DEFAULT, variant: MicVariant::Onboard }
    }

    /// Wraps a bus handle for a module of the given microphone variant at
    /// the default device address.
    pub fn new_with_variant(i2c: I2C, variant: MicVariant) -> (r: Self)
        ensures
            r.attached(),
            r.log() == i2c.transactions(),
            r.spec_device_addr() == DEVICE_ADDR_DEFAULT,
            r.spec_mic_variant() == variant,
    {
        Self { i2c: Some(i2c), device_addr: DEVICE_ADDR_DEFAULT, variant }
    }

    /// Sets a new device address, used by all subsequent transactions.
    /// Takes effect immediately; no bus activity.
    pub fn set_device_addr(&mut self, addr: u8)
        ensures
            final(self).spec_device_addr() == addr,
            final(self).spec_bus() == old(self).spec_bus(),
            final(self).spec_mic_variant() == old(self).spec_mic_variant(),
    {
        self.device_addr = addr;
    }

    /// Reads back the configured device address; no bus activity.
    pub fn device_addr(&self) -> (r: u8)
        ensures
            r == self.spec_device_addr(),
    {
        self.device_addr
    }

    /// Reads back the configured microphone variant; no bus activity.
    pub fn mic_variant(&self) -> (r: MicVariant)
        ensures
            r == self.spec_mic_variant(),
    {
        self.variant
    }

    /// Reads a single byte from a register of the device.
    pub fn read_byte(&mut self, reg: u8) -> (r: Result<u8, Error<I2C::BusError>>)
        ensures
            !old(self).attached() ==> r == Err::<u8, Error<I2C::BusError>>(Error::NoI2cInstance)
                && *final(self) == *old(self),
            old(self).attached() ==> match r {
                Ok(value) => old(self).completes_read(*final(self), reg, seq![value]),
                Err(e) => e is I2c && old(self).attempts_read(*final(self), reg),
            },
    {
        let res = self.read_bytes(reg, 1);
        match res {
            Ok(buffer) => {
                let value = buffer[0];
                proof {
                    assert(buffer@ =~= seq![value]);
                }
                Ok(value)
            },
            Err(e) => Err(e),
        }
    }

    /// Reads `count` bytes as one contiguous block starting at `start_reg`;
    /// the device auto-increments its internal register pointer.
    pub fn read_bytes(&mut self, start_reg: u8, count: usize) -> (r: Result<
        Vec<u8>,
        Error<I2C::BusError>,
    >)
        ensures
            !old(self).attached() ==> r == Err::<Vec<u8>, Error<I2C::BusError>>(
                Error::NoI2cInstance,
            ) && *final(self) == *old(self),
            old(self).attached() ==> match r {
                Ok(buffer) => buffer@.len() == count && old(self).completes_read(
                    *final(self),
                    start_reg,
                    buffer@,
                ),
                Err(e) => e is I2c && old(self).attempts_read(*final(self), start_reg),
            },
    {
        match self.i2c.take() {
            Some(mut bus) => {
                let mut sent: Vec<u8> = Vec::new();
                sent.push(start_reg);
                proof {
                    assert(sent@ =~= seq![start_reg]);
                }
                let res = bus.write_read(self.device_addr, sent, count);
                self.i2c = Some(bus);
                match res {
                    Ok(buffer) => Ok(buffer),
                    Err(e) => Err(Error::I2c(e)),
                }
            },
            None => Err(Error::NoI2cInstance),
        }
    }

    /// Writes a single byte to a register of the device.
    pub fn write_byte(&mut self, reg: u8, value: u8) -> (r: Result<(), Error<I2C::BusError>>)
        ensures
            !old(self).attached() ==> r == Err::<(), Error<I2C::BusError>>(Error::NoI2cInstance)
                && *final(self) == *old(self),
            old(self).attached() ==> old(self).issues_write(*final(self), seq![reg, value]) && (
            r matches Err(e) ==> e is I2c),
    {
        match self.i2c.take() {
            Some(mut bus) => {
                let mut payload: Vec<u8> = Vec::new();
                payload.push(reg);
                payload.push(value);
                proof {
                    assert(payload@ =~= seq![reg, value]);
                }
                let res = bus.write(self.device_addr, payload);
                self.i2c = Some(bus);
                match res {
                    Ok(()) => Ok(()),
                    Err(e) => Err(Error::I2c(e)),
                }
            },
            None => Err(Error::NoI2cInstance),
        }
    }

    /// Writes `buffer` to consecutive registers starting at `reg`, as one
    /// transaction.  The driver supports payloads of at most two bytes: a
    /// longer request is rejected with [`Error::BufferOverflow`] before any
    /// bus activity.
    pub fn write_two_bytes(&mut self, reg: u8, buffer: &Vec<u8>) -> (r: Result<
        (),
        Error<I2C::BusError>,
    >)
        requires
            buffer@.len() >= 2,
        ensures
            buffer@.len() > 2 ==> r == Err::<(), Error<I2C::BusError>>(Error::BufferOverflow)
                && *final(self) == *old(self),
            buffer@.len() == 2 && !old(self).attached() ==> r == Err::<(), Error<I2C::BusError>>(
                Error::NoI2cInstance,
            ) && *final(self) == *old(self),
            buffer@.len() == 2 && old(self).attached() ==> old(self).issues_write(
                *final(self),
                seq![reg, buffer@[0], buffer@[1]],
            ) && (r matches Err(e) ==> e is I2c),
    {
        if buffer.len() > 2 {
            return Err(Error::BufferOverflow);
        }
        match self.i2c.take() {
            Some(mut bus) => {
                let mut payload: Vec<u8> = Vec::new();
                payload.push(reg);
                payload.push(buffer[0]);
                payload.push(buffer[1]);
                proof {
                    assert(payload@ =~= seq![reg, buffer@[0], buffer@[1]]);
                }
                let res = bus.write(self.device_addr, payload);
                self.i2c = Some(bus);
                match res {
                    Ok(()) => Ok(()),
                    Err(e) => Err(Error::I2c(e)),
                }
            },
            None => Err(Error::NoI2cInstance),
        }
    }

    /// Gets the firmware version from the VERSION register.
    pub fn get_firmware_version(&mut self) -> (r: Result<u8, Error<I2C::BusError>>)
        ensures
            !old(self).attached() ==> r == Err::<u8, Error<I2C::BusError>>(Error::NoI2cInstance)
                && *final(self) == *old(self),
            old(self).attached() ==> match r {
                Ok(version) => old(self).completes_read(*final(self), REG_VERSION, seq![version]),
                Err(e) => e is I2c && old(self).attempts_read(*final(self), REG_VERSION),
            },
    {
        self.read_byte(REG_VERSION)
    }

    /// Gets the 32-bit device id from the four ID registers, read as one
    /// block and combined most significant byte first.
    pub fn get_device_id(&mut self) -> (r: Result<u32, Error<I2C::BusError>>)
        ensures
            !old(self).attached() ==> r == Err::<u32, Error<I2C::BusError>>(Error::NoI2cInstance)
                && *final(self) == *old(self),
            old(self).attached() ==> match r {
                Ok(id) => old(self).completes_read(
                    *final(self),
                    REG_DEVICE_ID,
                    spec_device_id_bytes(id),
                ),
                Err(e) => e is I2c && old(self).attempts_read(*final(self), REG_DEVICE_ID),
            },
    {
        let res = self.read_bytes(REG_DEVICE_ID, 4);
        match res {
            Ok(buffer) => {
                let b3 = buffer[0];
                let b2 = buffer[1];
                let b1 = buffer[2];
                let b0 = buffer[3];
                let device_id: u32 = ((b3 as u32) << 24) | ((b2 as u32) << 16) | ((b1 as u32) << 8)
                    | (b0 as u32);
                proof {
                    assert({
                        let id = ((b3 as u32) << 24) | ((b2 as u32) << 16) | ((b1 as u32) << 8) | (
                        b0 as u32);
                        (id >> 24) as u8 == b3 && (id >> 16) as u8 == b2 && (id >> 8) as u8 == b1
                            && id as u8 == b0
                    }) by (bit_vector);
                    assert(buffer@ =~= spec_device_id_bytes(device_id));
                }
                Ok(device_id)
            },
            Err(e) => Err(e),
        }
    }

    /// Gets the 16-bit averaging time in ms from the TAVG registers,
    /// reassembled big-endian.
    pub fn get_avg_time(&mut self) -> (r: Result<u16, Error<I2C::BusError>>)
        ensures
            !old(self).attached() ==> r == Err::<u16, Error<I2C::BusError>>(Error::NoI2cInstance)
                && *final(self) == *old(self),
            old(self).attached() ==> match r {
                Ok(ms) => old(self).completes_read(
                    *final(self),
                    REG_TAVG_HIGH,
                    seq![spec_tavg_high_byte(ms), spec_tavg_low_byte(ms)],
                ),
                Err(e) => e is I2c && old(self).attempts_read(*final(self), REG_TAVG_HIGH),
            },
    {
        let res = self.read_bytes(REG_TAVG_HIGH, 2);
        match res {
            Ok(buffer) => {
                let high = buffer[0];
                let low = buffer[1];
                let avg_time_ms: u16 = ((high as u16) << 8) | (low as u16);
                proof {
                    assert(((((high as u16) << 8) | (low as u16)) >> 8) as u8 == high
                        && ((((high as u16) << 8) | (low as u16)) & 0xff) as u8 == low)
                        by (bit_vector);
                    assert(buffer@ =~= seq![
                        spec_tavg_high_byte(avg_time_ms),
                        spec_tavg_low_byte(avg_time_ms),
                    ]);
                }
                Ok(avg_time_ms)
            },
            Err(e) => Err(e),
        }
    }

    /// Sets the averaging time in ms, written big-endian to the TAVG
    /// registers.  Out-of-range times are passed through uninterpreted.
    pub fn set_avg_time(&mut self, ms: u16) -> (r: Result<(), Error<I2C::BusError>>)
        ensures
            !old(self).attached() ==> r == Err::<(), Error<I2C::BusError>>(Error::NoI2cInstance)
                && *final(self) == *old(self),
            old(self).attached() ==> old(self).issues_write(
                *final(self),
                seq![REG_TAVG_HIGH, spec_tavg_high_byte(ms), spec_tavg_low_byte(ms)],
            ) && (r matches Err(e) ==> e is I2c),
    {
        let tavg_high_byte: u8 = (ms >> 8) as u8;
        let tavg_low_byte: u8 = (ms & 0xff) as u8;
        proof {
            assert(ms >> 8 <= 0xff && (ms & 0xff) <= 0xff) by (bit_vector);
        }
        let mut buffer: Vec<u8> = Vec::new();
        buffer.push(tavg_high_byte);
        buffer.push(tavg_low_byte);
        proof {
            assert(buffer@ =~= seq![spec_tavg_high_byte(ms), spec_tavg_low_byte(ms)]);
        }
        self.write_two_bytes(REG_TAVG_HIGH, &buffer)
    }

    /// Gets the CONTROL register, decoded for the driver's microphone
    /// variant.
    pub fn get_control_register(&mut self) -> (r: Result<ControlRegister, Error<I2C::BusError>>)
        ensures
            !old(self).attached() ==> r == Err::<ControlRegister, Error<I2C::BusError>>(
                Error::NoI2cInstance,
            ) && *final(self) == *old(self),
            old(self).attached() ==> match r {
                Ok(reg) => reg.spec_variant() == old(self).spec_mic_variant() && old(
                    self,
                ).completes_read(*final(self), REG_CONTROL, seq![reg.spec_bits()]),
                Err(e) => e is I2c && old(self).attempts_read(*final(self), REG_CONTROL),
            },
    {
        let variant = self.variant;
        let res = self.read_byte(REG_CONTROL);
        match res {
            Ok(raw) => Ok(ControlRegister::from_bits_with_variant(raw, variant)),
            Err(e) => Err(e),
        }
    }

    /// Sets the CONTROL register: a full overwrite of the byte.  Callers
    /// wanting a partial field update must read, mutate fields, then set.
    pub fn set_control_register(&mut self, reg: ControlRegister) -> (r: Result<
        (),
        Error<I2C::BusError>,
    >)
        ensures
            !old(self).attached() ==> r == Err::<(), Error<I2C::BusError>>(Error::NoI2cInstance)
                && *final(self) == *old(self),
            old(self).attached() ==> old(self).issues_write(
                *final(self),
                seq![REG_CONTROL, reg.spec_bits()],
            ) && (r matches Err(e) ==> e is I2c),
    {
        self.write_byte(REG_CONTROL, reg.into_bits())
    }

    /// Soft resets the sensor by writing the RESET register with only the
    /// system-reset bit set — exactly one write of
    /// `[REG_RESET, 0b0000_1000]`, whatever the rest of the driver state.
    /// The bit is self-clearing on the device; nothing is read back.
    pub fn reset(&mut self) -> (r: Result<(), Error<I2C::BusError>>)
        ensures
            !old(self).attached() ==> r == Err::<(), Error<I2C::BusError>>(Error::NoI2cInstance)
                && *final(self) == *old(self),
            old(self).attached() ==> old(self).issues_write(
                *final(self),
                seq![REG_RESET, 0x08u8],
            ) && (r matches Err(e) ==> e is I2c),
    {
        let reg_reset = ResetRegister::new().with_system_reset(true);
        proof {
            assert(0x00u8 | 0x08u8 == 0x08u8) by (bit_vector);
        }
        self.write_byte(REG_RESET, reg_reset.into_bits())
    }

    /// Gets the latest SPL value in decibels from the DECIBEL register,
    /// averaged by the device over the configured averaging time.  The
    /// sensed value is returned unvalidated.
    pub fn get_latest_decibel(&mut self) -> (r: Result<u8, Error<I2C::BusError>>)
        ensures
            !old(self).attached() ==> r == Err::<u8, Error<I2C::BusError>>(Error::NoI2cInstance)
                && *final(self) == *old(self),
            old(self).attached() ==> match r {
                Ok(value) => old(self).completes_read(*final(self), REG_DECIBEL, seq![value]),
                Err(e) => e is I2c && old(self).attempts_read(*final(self), REG_DECIBEL),
            },
    {
        self.read_byte(REG_DECIBEL)
    }

    /// Gets the maximum decibel reading captured since power-up or the
    /// last MIN/MAX clear, from the MAX register.
    pub fn get_max_decibel(&mut self) -> (r: Result<u8, Error<I2C::BusError>>)
        ensures
            !old(self).attached() ==> r == Err::<u8, Error<I2C::BusError>>(Error::NoI2cInstance)
                && *final(self) == *old(self),
            old(self).attached() ==> match r {
                Ok(value) => old(self).completes_read(*final(self), REG_MAX, seq![value]),
                Err(e) => e is I2c && old(self).attempts_read(*final(self), REG_MAX),
            },
    {
        self.read_byte(REG_MAX)
    }

    /// Gets the minimum decibel reading captured since power-up or the
    /// last MIN/MAX clear, from the MIN register.
    pub fn get_min_decibel(&mut self) -> (r: Result<u8, Error<I2C::BusError>>)
        ensures
            !old(self).attached() ==> r == Err::<u8, Error<I2C::BusError>>(Error::NoI2cInstance)
                && *final(self) == *old(self),
            old(self).attached() ==> match r {
                Ok(value) => old(self).completes_read(*final(self), REG_MIN, seq![value]),
                Err(e) => e is I2c && old(self).attempts_read(*final(self), REG_MIN),
            },
    {
        self.read_byte(REG_MIN)
    }

    /// Gets the value stored in the SCRATCH register.
    pub fn get_scratch(&mut self) -> (r: Result<u8, Error<I2C::BusError>>)
        ensures
            !old(self).attached() ==> r == Err::<u8, Error<I2C::BusError>>(Error::NoI2cInstance)
                && *final(self) == *old(self),
            old(self).attached() ==> match r {
                Ok(value) => old(self).completes_read(*final(self), REG_SCRATCH, seq![value]),
                Err(e) => e is I2c && old(self).attempts_read(*final(self), REG_SCRATCH),
            },
    {
        self.read_byte(REG_SCRATCH)
    }

    /// Sets the value stored in the SCRATCH register.
    pub fn set_scratch(&mut self, value: u8) -> (r: Result<(), Error<I2C::BusError>>)
        ensures
            !old(self).attached() ==> r == Err::<(), Error<I2C::BusError>>(Error::NoI2cInstance)
                && *final(self) == *old(self),
            old(self).attached() ==> old(self).issues_write(
                *final(self),
                seq![REG_SCRATCH, value],
            ) && (r matches Err(e) ==> e is I2c),
    {
        self.write_byte(REG_SCRATCH, value)
    }

    /// Gets the gain from the GAIN register, in 0.5 dB steps.  Available
    /// only on the external-microphone variant.
    pub fn get_gain(&mut self) -> (r: Result<u8, Error<I2C::BusError>>)
        requires
            old(self).spec_mic_variant() == MicVariant::External,
        ensures
            !old(self).attached() ==> r == Err::<u8, Error<I2C::BusError>>(Error::NoI2cInstance)
                && *final(self) == *old(self),
            old(self).attached() ==> match r {
                Ok(value) => old(self).completes_read(*final(self), REG_GAIN, seq![value]),
                Err(e) => e is I2c && old(self).attempts_read(*final(self), REG_GAIN),
            },
    {
        self.read_byte(REG_GAIN)
    }

    /// Sets the gain in the GAIN register.  The documented domain is 0–95
    /// in 0.5 dB steps; out-of-range values are passed through
    /// uninterpreted.  Available only on the external-microphone variant.
    pub fn set_gain(&mut self, value: u8) -> (r: Result<(), Error<I2C::BusError>>)
        requires
            old(self).spec_mic_variant() == MicVariant::External,
        ensures
            !old(self).attached() ==> r == Err::<(), Error<I2C::BusError>>(Error::NoI2cInstance)
                && *final(self) == *old(self),
            old(self).attached() ==> old(self).issues_write(
                *final(self),
                seq![REG_GAIN, value],
            ) && (r matches Err(e) ==> e is I2c),
    {
        self.write_byte(REG_GAIN, value)
    }

    /// Releases the bus handle back to the caller, exactly once.  A second
    /// release attempt reports [`Error::NoI2cInstance`] rather than
    /// aborting, and leaves the driver unchanged.
    pub fn destroy(&mut self) -> (r: Result<I2C, Error<I2C::BusError>>)
        ensures
            !old(self).attached() ==> r == Err::<I2C, Error<I2C::BusError>>(Error::NoI2cInstance)
                && *final(self) == *old(self),
            old(self).attached() ==> r == Ok::<I2C, Error<I2C::BusError>>(
                old(self).spec_bus()->Some_0,
            ) && !final(self).attached() && old(self).config_preserved(*final(self)),
    {
        match self.i2c.take() {
            Some(bus) => Ok(bus),
            None => Err(Error::NoI2cInstance),
        }
    }
}

} // verus!
