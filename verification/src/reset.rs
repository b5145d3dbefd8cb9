//! Codec for the packed RESET register.
//!
//! The RESET register holds four boolean command bits, each self-clearing
//! on the device: bit 0 clears the interrupt signal, bit 1 clears the
//! stored MIN/MAX values, bit 2 clears the decibel history and bit 3
//! performs a soft system reset.  The driver only ever writes this
//! register — a value is built from [`ResetRegister::new`] with the wanted
//! command bits set and sent fire-and-forget; no operation reads it back.

use vstd::prelude::*;

verus! {

/// A RESET register write value.  The remaining four bits are reserved and
/// stay exactly as set, which for a value built from [`ResetRegister::new`]
/// is zero.
#[derive(Clone, Copy, Debug, PartialEq, Eq, Structural)]
pub struct ResetRegister {
    bits: u8,
}

impl ResetRegister {
    /// The raw register byte this value encodes to.
    pub closed spec fn spec_bits(self) -> u8 {
        self.bits
    }

    /// Bit 0: clear the interrupt signal and set the INT pin to high-Z.
    pub open spec fn spec_clear_interrupt(self) -> bool {
        self.spec_bits() & 0x01 != 0
    }

    /// Bit 1: clear the stored MIN and MAX decibel values.
    pub open spec fn spec_clear_min_max(self) -> bool {
        self.spec_bits() & 0x02 != 0
    }

    /// Bit 2: clear the stored decibel history.
    pub open spec fn spec_clear_history(self) -> bool {
        self.spec_bits() & 0x04 != 0
    }

    /// Bit 3: soft system reset; also wakes the device from sleep.
    pub open spec fn spec_system_reset(self) -> bool {
        self.spec_bits() & 0x08 != 0
    }

    /// An all-zero register: no command requested.
    pub fn new() -> (r: Self)
        ensures
            r.spec_bits() == 0x00,
    {
        ResetRegister { bits: 0x00 }
    }

    /// Encodes the register as its raw byte, the write payload.
    pub fn into_bits(self) -> (r: u8)
        ensures
            r == self.spec_bits(),
    {
        self.bits
    }

    /// Reads the clear-interrupt command bit.
    pub fn clear_interrupt(&self) -> (r: bool)
        ensures
            r == self.spec_clear_interrupt(),
    {
        self.bits & 0x01 != 0
    }

    /// Returns the register with the clear-interrupt bit set as given; no
    /// other bit changes.
    pub fn with_clear_interrupt(self, value: bool) -> (r: Self)
        ensures
            r.spec_bits() == (if value {
                self.spec_bits() | 0x01
            } else {
                self.spec_bits() & !0x01
            }),
            r.spec_clear_interrupt() == value,
            r.spec_clear_min_max() == self.spec_clear_min_max(),
            r.spec_clear_history() == self.spec_clear_history(),
            r.spec_system_reset() == self.spec_system_reset(),
    {
        let ghost b = self.bits;
        let bits = if value {
            self.bits | 0x01
        } else {
            self.bits & !0x01
        };
        proof {
            assert((b | 0x01) & 0x01 != 0 && (b & !0x01) & 0x01 == 0
                && (b | 0x01) & 0x02 == b & 0x02 && (b & !0x01) & 0x02 == b & 0x02
                && (b | 0x01) & 0x04 == b & 0x04 && (b & !0x01) & 0x04 == b & 0x04
                && (b | 0x01) & 0x08 == b & 0x08 && (b & !0x01) & 0x08 == b & 0x08)
                by (bit_vector);
        }
        ResetRegister { bits }
    }

    /// Reads the clear-min/max command bit.
    pub fn clear_min_max(&self) -> (r: bool)
        ensures
            r == self.spec_clear_min_max(),
    {
        self.bits & 0x02 != 0
    }

    /// Returns the register with the clear-min/max bit set as given; no
    /// other bit changes.
    pub fn with_clear_min_max(self, value: bool) -> (r: Self)
        ensures
            r.spec_bits() == (if value {
                self.spec_bits() | 0x02
            } else {
                self.spec_bits() & !0x02
            }),
            r.spec_clear_min_max() == value,
            r.spec_clear_interrupt() == self.spec_clear_interrupt(),
            r.spec_clear_history() == self.spec_clear_history(),
            r.spec_system_reset() == self.spec_system_reset(),
    {
        let ghost b = self.bits;
        let bits = if value {
            self.bits | 0x02
        } else {
            self.bits & !0x02
        };
        proof {
            assert((b | 0x02) & 0x02 != 0 && (b & !0x02) & 0x02 == 0
                && (b | 0x02) & 0x01 == b & 0x01 && (b & !0x02) & 0x01 == b & 0x01
                && (b | 0x02) & 0x04 == b & 0x04 && (b & !0x02) & 0x04 == b & 0x04
                && (b | 0x02) & 0x08 == b & 0x08 && (b & !0x02) & 0x08 == b & 0x08)
                by (bit_vector);
        }
        ResetRegister { bits }
    }

    /// Reads the clear-history command bit.
    pub fn clear_history(&self) -> (r: bool)
        ensures
            r == self.spec_clear_history(),
    {
        self.bits & 0x04 != 0
    }

    /// Returns the register with the clear-history bit set as given; no
    /// other bit changes.
    pub fn with_clear_history(self, value: bool) -> (r: Self)
        ensures
            r.spec_bits() == (if value {
                self.spec_bits() | 0x04
            } else {
                self.spec_bits() & !0x04
            }),
            r.spec_clear_history() == value,
            r.spec_clear_interrupt() == self.spec_clear_interrupt(),
            r.spec_clear_min_max() == self.spec_clear_min_max(),
            r.spec_system_reset() == self.spec_system_reset(),
    {
        let ghost b = self.bits;
        let bits = if value {
            self.bits | 0x04
        } else {
            self.bits & !0x04
        };
        proof {
            assert((b | 0x04) & 0x04 != 0 && (b & !0x04) & 0x04 == 0
                && (b | 0x04) & 0x01 == b & 0x01 && (b & !0x04) & 0x01 == b & 0x01
                && (b | 0x04) & 0x02 == b & 0x02 && (b & !0x04) & 0x02 == b & 0x02
                && (b | 0x04) & 0x08 == b & 0x08 && (b & !0x04) & 0x08 == b & 0x08)
                by (bit_vector);
        }
        ResetRegister { bits }
    }

    /// Reads the system-reset command bit.
    pub fn system_reset(&self) -> (r: bool)
        ensures
            r == self.spec_system_reset(),
    {
        self.bits & 0x08 != 0
    }

    /// Returns the register with the system-reset bit set as given; no
    /// other bit changes.
    pub fn with_system_reset(self, value: bool) -> (r: Self)
        ensures
            r.spec_bits() == (if value {
                self.spec_bits() | 0x08
            } else {
                self.spec_bits() & !0x08
            }),
            r.spec_system_reset() == value,
            r.spec_clear_interrupt() == self.spec_clear_interrupt(),
            r.spec_clear_min_max() == self.spec_clear_min_max(),
            r.spec_clear_history() == self.spec_clear_history(),
    {
        let ghost b = self.bits;
        let bits = if value {
            self.bits | 0x08
        } else {
            self.bits & !0x08
        };
        proof {
            assert((b | 0x08) & 0x08 != 0 && (b & !0x08) & 0x08 == 0
                && (b | 0x08) & 0x01 == b & 0x01 && (b & !0x08) & 0x01 == b & 0x01
                && (b | 0x08) & 0x02 == b & 0x02 && (b & !0x08) & 0x02 == b & 0x02
                && (b | 0x08) & 0x04 == b & 0x04 && (b & !0x08) & 0x04 == b & 0x04)
                by (bit_vector);
        }
        ResetRegister { bits }
    }
}

} // verus!
