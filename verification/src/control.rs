//! Codec for the packed CONTROL register.
//!
//! The CONTROL register is a single byte whose bits carry independent
//! meanings: bit 0 powers the sensor down, bits 1–2 select the weighting
//! filter, bit 3 enables the interrupt pin and bit 4 selects the interrupt
//! type.  On modules fitted with an external microphone, bit 5 enables the
//! line output; on the standard module that bit is reserved.  The two
//! layouts are the two [`MicVariant`]s of the codec, selected when a value
//! is decoded.  All remaining bits are reserved: the codec stores the raw
//! byte and never zeroes them, so a read-modify-write cycle carries them
//! through unchanged.

use vstd::prelude::*;

verus! {

/// Weighting filter applied by the sensor before a level is reported.
#[derive(Clone, Copy, Debug, PartialEq, Eq, Structural)]
pub enum FilterSetting {
    /// No filter.
    NoFilter,
    /// A-weighting.
    AWeighting,
    /// C-weighting.
    CWeighting,
}

/// The two microphone fits of the module, which give the CONTROL register
/// its two bit layouts: on [`MicVariant::External`] modules bit 5 is the
/// line-output enable, on [`MicVariant::Onboard`] modules it is reserved.
#[derive(Clone, Copy, Debug, PartialEq, Eq, Structural)]
pub enum MicVariant {
    /// Standard module with the factory-fitted microphone.
    Onboard,
    /// Module configured for an external microphone.
    External,
}

/// The two-bit filter field value that encodes `f`.
pub open spec fn spec_filter_into_bits(f: FilterSetting) -> u8 {
    match f {
        FilterSetting::NoFilter => 0x00,
        FilterSetting::AWeighting => 0x01,
        FilterSetting::CWeighting => 0x02,
    }
}

/// The filter selected by a two-bit field value.  The hardware never
/// produces the unused pattern `0b11`; it decodes to C-weighting rather
/// than failing.
pub open spec fn spec_filter_from_bits(bits: u8) -> FilterSetting {
    if bits == 0x00 {
        FilterSetting::NoFilter
    } else if bits == 0x01 {
        FilterSetting::AWeighting
    } else {
        FilterSetting::CWeighting
    }
}

impl FilterSetting {
    /// Decodes a two-bit filter field.
    pub fn from_bits(bits: u8) -> (r: Self)
        ensures
            r == spec_filter_from_bits(bits),
    {
        match bits {
            0b00 => Self::NoFilter,
            0b01 => Self::AWeighting,
            _ => Self::CWeighting,
        }
    }

    /// Encodes the filter as a two-bit field value.
    pub fn into_bits(self) -> (r: u8)
        ensures
            r == spec_filter_into_bits(self),
    {
        match self {
            FilterSetting::NoFilter => 0b00,
            FilterSetting::AWeighting => 0b01,
            FilterSetting::CWeighting => 0b10,
        }
    }
}

/// Law: every filter setting survives an encode followed by a decode.
pub proof fn lemma_filter_round_trip(f: FilterSetting)
    ensures
        spec_filter_from_bits(spec_filter_into_bits(f)) == f,
{
}

/// A decoded CONTROL register byte.
///
/// The raw byte is stored as read from the device, so reserved bits are
/// preserved opaquely: decoding a byte and re-encoding it always yields the
/// byte unchanged, and the field setters touch only the bits of their own
/// field.
#[derive(Clone, Copy, Debug, PartialEq, Eq, Structural)]
pub struct ControlRegister {
    bits: u8,
    variant: MicVariant,
}

impl ControlRegister {
    /// The raw register byte this value encodes to.
    pub closed spec fn spec_bits(self) -> u8 {
        self.bits
    }

    /// The bit layout this value was decoded for.
    pub closed spec fn spec_variant(self) -> MicVariant {
        self.variant
    }

    /// The register value that decoding `bits` under `variant` yields.
    pub closed spec fn spec_from_bits(bits: u8, variant: MicVariant) -> ControlRegister {
        ControlRegister { bits, variant }
    }

    /// Bit 0: sensor power-down.
    pub open spec fn spec_power_down(self) -> bool {
        self.spec_bits() & 0x01 != 0
    }

    /// Bits 1–2: weighting filter selection.
    pub open spec fn spec_filter_setting(self) -> FilterSetting {
        spec_filter_from_bits((self.spec_bits() >> 1) & 0x03)
    }

    /// Bit 3: interrupt pin enable.
    pub open spec fn spec_interrupt_enable(self) -> bool {
        self.spec_bits() & 0x08 != 0
    }

    /// Bit 4: min/max level interrupt select.
    pub open spec fn spec_interrupt_type(self) -> bool {
        self.spec_bits() & 0x10 != 0
    }

    /// Bit 5: line-output enable (external-microphone layout only).
    pub open spec fn spec_enable_line_out(self) -> bool {
        self.spec_bits() & 0x20 != 0
    }

    /// An all-zero register for the standard module.
    pub fn new() -> (r: Self)
        ensures
            r == ControlRegister::spec_from_bits(0x00, MicVariant::Onboard),
    {
        ControlRegister { bits: 0x00, variant: MicVariant::Onboard }
    }

    /// Decodes a register byte read from a standard module.
    pub fn from_bits(bits: u8) -> (r: Self)
        ensures
            r == ControlRegister::spec_from_bits(bits, MicVariant::Onboard),
            r.spec_bits() == bits,
            r.spec_variant() == MicVariant::Onboard,
    {
        ControlRegister { bits, variant: MicVariant::Onboard }
    }

    /// Decodes a register byte under the given bit layout.
    pub fn from_bits_with_variant(bits: u8, variant: MicVariant) -> (r: Self)
        ensures
            r == ControlRegister::spec_from_bits(bits, variant),
            r.spec_bits() == bits,
            r.spec_variant() == variant,
    {
        ControlRegister { bits, variant }
    }

    /// Encodes the register back to its raw byte.
    pub fn into_bits(self) -> (r: u8)
        ensures
            r == self.spec_bits(),
    {
        self.bits
    }

    /// Reads the power-down bit.
    pub fn power_down(&self) -> (r: bool)
        ensures
            r == self.spec_power_down(),
    {
        self.bits & 0x01 != 0
    }

    /// Sets the power-down bit, leaving every other bit unchanged.
    pub fn set_power_down(&mut self, value: bool)
        ensures
            final(self).spec_bits() == (if value {
                old(self).spec_bits() | 0x01
            } else {
                old(self).spec_bits() & !0x01
            }),
            final(self).spec_variant() == old(self).spec_variant(),
            final(self).spec_power_down() == value,
            final(self).spec_filter_setting() == old(self).spec_filter_setting(),
            final(self).spec_interrupt_enable() == old(self).spec_interrupt_enable(),
            final(self).spec_interrupt_type() == old(self).spec_interrupt_type(),
            final(self).spec_enable_line_out() == old(self).spec_enable_line_out(),
    {
        let ghost b = self.bits;
        if value {
            self.bits = self.bits | 0x01;
        } else {
            self.bits = self.bits & !0x01;
        }
        proof {
            assert((b | 0x01) & 0x01 != 0 && (b & !0x01) & 0x01 == 0
                && ((b | 0x01) >> 1) & 0x03 == (b >> 1) & 0x03
                && ((b & !0x01) >> 1) & 0x03 == (b >> 1) & 0x03
                && (b | 0x01) & 0x08 == b & 0x08 && (b & !0x01) & 0x08 == b & 0x08
                && (b | 0x01) & 0x10 == b & 0x10 && (b & !0x01) & 0x10 == b & 0x10
                && (b | 0x01) & 0x20 == b & 0x20 && (b & !0x01) & 0x20 == b & 0x20)
                by (bit_vector);
        }
    }

    /// Returns the register with the power-down bit set as given.
    pub fn with_power_down(self, value: bool) -> (r: Self)
        ensures
            r.spec_bits() == (if value {
                self.spec_bits() | 0x01
            } else {
                self.spec_bits() & !0x01
            }),
            r.spec_variant() == self.spec_variant(),
            r.spec_power_down() == value,
            r.spec_filter_setting() == self.spec_filter_setting(),
            r.spec_interrupt_enable() == self.spec_interrupt_enable(),
            r.spec_interrupt_type() == self.spec_interrupt_type(),
            r.spec_enable_line_out() == self.spec_enable_line_out(),
    {
        let mut r = self;
        r.set_power_down(value);
        r
    }

    /// Reads the filter field.
    pub fn filter_setting(&self) -> (r: FilterSetting)
        ensures
            r == self.spec_filter_setting(),
    {
        FilterSetting::from_bits((self.bits >> 1) & 0x03)
    }

    /// Sets the two filter bits, leaving every other bit unchanged.
    pub fn set_filter_setting(&mut self, value: FilterSetting)
        ensures
            final(self).spec_bits() == old(self).spec_bits() & !0x06 | (
            spec_filter_into_bits(value) << 1),
            final(self).spec_variant() == old(self).spec_variant(),
            final(self).spec_filter_setting() == value,
            final(self).spec_power_down() == old(self).spec_power_down(),
            final(self).spec_interrupt_enable() == old(self).spec_interrupt_enable(),
            final(self).spec_interrupt_type() == old(self).spec_interrupt_type(),
            final(self).spec_enable_line_out() == old(self).spec_enable_line_out(),
    {
        let ghost b = self.bits;
        let f = value.into_bits();
        self.bits = self.bits & !0x06 | (f << 1);
        proof {
            assert(f == 0x00 || f == 0x01 || f == 0x02);
            assert(f <= 0x02 ==> ((b & !0x06 | (f << 1)) >> 1) & 0x03 == f
                && (b & !0x06 | (f << 1)) & 0x01 == b & 0x01
                && (b & !0x06 | (f << 1)) & 0x08 == b & 0x08
                && (b & !0x06 | (f << 1)) & 0x10 == b & 0x10
                && (b & !0x06 | (f << 1)) & 0x20 == b & 0x20) by (bit_vector);
            lemma_filter_round_trip(value);
        }
    }

    /// Returns the register with the filter field set as given.
    pub fn with_filter_setting(self, value: FilterSetting) -> (r: Self)
        ensures
            r.spec_bits() == self.spec_bits() & !0x06 | (spec_filter_into_bits(value) << 1),
            r.spec_variant() == self.spec_variant(),
            r.spec_filter_setting() == value,
            r.spec_power_down() == self.spec_power_down(),
            r.spec_interrupt_enable() == self.spec_interrupt_enable(),
            r.spec_interrupt_type() == self.spec_interrupt_type(),
            r.spec_enable_line_out() == self.spec_enable_line_out(),
    {
        let mut r = self;
        r.set_filter_setting(value);
        r
    }

    /// Sets the filter field; alias of [`ControlRegister::set_filter_setting`]
    /// kept as the documented entry point for filter changes.
    pub fn set_filter(&mut self, filter_setting: FilterSetting)
        ensures
            final(self).spec_bits() == old(self).spec_bits() & !0x06 | (
            spec_filter_into_bits(filter_setting) << 1),
            final(self).spec_variant() == old(self).spec_variant(),
            final(self).spec_filter_setting() == filter_setting,
            final(self).spec_power_down() == old(self).spec_power_down(),
            final(self).spec_interrupt_enable() == old(self).spec_interrupt_enable(),
            final(self).spec_interrupt_type() == old(self).spec_interrupt_type(),
            final(self).spec_enable_line_out() == old(self).spec_enable_line_out(),
    {
        self.set_filter_setting(filter_setting);
    }

    /// Reads the interrupt-enable bit.
    pub fn interrupt_enable(&self) -> (r: bool)
        ensures
            r == self.spec_interrupt_enable(),
    {
        self.bits & 0x08 != 0
    }

    /// Sets the interrupt-enable bit, leaving every other bit unchanged.
    pub fn set_interrupt_enable(&mut self, value: bool)
        ensures
            final(self).spec_bits() == (if value {
                old(self).spec_bits() | 0x08
            } else {
                old(self).spec_bits() & !0x08
            }),
            final(self).spec_variant() == old(self).spec_variant(),
            final(self).spec_interrupt_enable() == value,
            final(self).spec_power_down() == old(self).spec_power_down(),
            final(self).spec_filter_setting() == old(self).spec_filter_setting(),
            final(self).spec_interrupt_type() == old(self).spec_interrupt_type(),
            final(self).spec_enable_line_out() == old(self).spec_enable_line_out(),
    {
        let ghost b = self.bits;
        if value {
            self.bits = self.bits | 0x08;
        } else {
            self.bits = self.bits & !0x08;
        }
        proof {
            assert((b | 0x08) & 0x08 != 0 && (b & !0x08) & 0x08 == 0
                && ((b | 0x08) >> 1) & 0x03 == (b >> 1) & 0x03
                && ((b & !0x08) >> 1) & 0x03 == (b >> 1) & 0x03
                && (b | 0x08) & 0x01 == b & 0x01 && (b & !0x08) & 0x01 == b & 0x01
                && (b | 0x08) & 0x10 == b & 0x10 && (b & !0x08) & 0x10 == b & 0x10
                && (b | 0x08) & 0x20 == b & 0x20 && (b & !0x08) & 0x20 == b & 0x20)
                by (bit_vector);
        }
    }

    /// Returns the register with the interrupt-enable bit set as given.
    pub fn with_interrupt_enable(self, value: bool) -> (r: Self)
        ensures
            r.spec_bits() == (if value {
                self.spec_bits() | 0x08
            } else {
                self.spec_bits() & !0x08
            }),
            r.spec_variant() == self.spec_variant(),
            r.spec_interrupt_enable() == value,
            r.spec_power_down() == self.spec_power_down(),
            r.spec_filter_setting() == self.spec_filter_setting(),
            r.spec_interrupt_type() == self.spec_interrupt_type(),
            r.spec_enable_line_out() == self.spec_enable_line_out(),
    {
        let mut r = self;
        r.set_interrupt_enable(value);
        r
    }

    /// Reads the interrupt-type bit.
    pub fn interrupt_type(&self) -> (r: bool)
        ensures
            r == self.spec_interrupt_type(),
    {
        self.bits & 0x10 != 0
    }

    /// Sets the interrupt-type bit, leaving every other bit unchanged.
    pub fn set_interrupt_type(&mut self, value: bool)
        ensures
            final(self).spec_bits() == (if value {
                old(self).spec_bits() | 0x10
            } else {
                old(self).spec_bits() & !0x10
            }),
            final(self).spec_variant() == old(self).spec_variant(),
            final(self).spec_interrupt_type() == value,
            final(self).spec_power_down() == old(self).spec_power_down(),
            final(self).spec_filter_setting() == old(self).spec_filter_setting(),
            final(self).spec_interrupt_enable() == old(self).spec_interrupt_enable(),
            final(self).spec_enable_line_out() == old(self).spec_enable_line_out(),
    {
        let ghost b = self.bits;
        if value {
            self.bits = self.bits | 0x10;
        } else {
            self.bits = self.bits & !0x10;
        }
        proof {
            assert((b | 0x10) & 0x10 != 0 && (b & !0x10) & 0x10 == 0
                && ((b | 0x10) >> 1) & 0x03 == (b >> 1) & 0x03
                && ((b & !0x10) >> 1) & 0x03 == (b >> 1) & 0x03
                && (b | 0x10) & 0x01 == b & 0x01 && (b & !0x10) & 0x01 == b & 0x01
                && (b | 0x10) & 0x08 == b & 0x08 && (b & !0x10) & 0x08 == b & 0x08
                && (b | 0x10) & 0x20 == b & 0x20 && (b & !0x10) & 0x20 == b & 0x20)
                by (bit_vector);
        }
    }

    /// Returns the register with the interrupt-type bit set as given.
    pub fn with_interrupt_type(self, value: bool) -> (r: Self)
        ensures
            r.spec_bits() == (if value {
                self.spec_bits() | 0x10
            } else {
                self.spec_bits() & !0x10
            }),
            r.spec_variant() == self.spec_variant(),
            r.spec_interrupt_type() == value,
            r.spec_power_down() == self.spec_power_down(),
            r.spec_filter_setting() == self.spec_filter_setting(),
            r.spec_interrupt_enable() == self.spec_interrupt_enable(),
            r.spec_enable_line_out() == self.spec_enable_line_out(),
    {
        let mut r = self;
        r.set_interrupt_type(value);
        r
    }

    /// Reads the line-output enable bit.  Only the external-microphone
    /// layout gives bit 5 this meaning; on the standard layout it is
    /// reserved and has no accessor.
    pub fn enable_line_out(&self) -> (r: bool)
        requires
            self.spec_variant() == MicVariant::External,
        ensures
            r == self.spec_enable_line_out(),
    {
        self.bits & 0x20 != 0
    }

    /// Sets the line-output enable bit, leaving every other bit unchanged.
    pub fn set_enable_line_out(&mut self, value: bool)
        requires
            old(self).spec_variant() == MicVariant::External,
        ensures
            final(self).spec_bits() == (if value {
                old(self).spec_bits() | 0x20
            } else {
                old(self).spec_bits() & !0x20
            }),
            final(self).spec_variant() == old(self).spec_variant(),
            final(self).spec_enable_line_out() == value,
            final(self).spec_power_down() == old(self).spec_power_down(),
            final(self).spec_filter_setting() == old(self).spec_filter_setting(),
            final(self).spec_interrupt_enable() == old(self).spec_interrupt_enable(),
            final(self).spec_interrupt_type() == old(self).spec_interrupt_type(),
    {
        let ghost b = self.bits;
        if value {
            self.bits = self.bits | 0x20;
        } else {
            self.bits = self.bits & !0x20;
        }
        proof {
            assert((b | 0x20) & 0x20 != 0 && (b & !0x20) & 0x20 == 0
                && ((b | 0x20) >> 1) & 0x03 == (b >> 1) & 0x03
                && ((b & !0x20) >> 1) & 0x03 == (b >> 1) & 0x03
                && (b | 0x20) & 0x01 == b & 0x01 && (b & !0x20) & 0x01 == b & 0x01
                && (b | 0x20) & 0x08 == b & 0x08 && (b & !0x20) & 0x08 == b & 0x08
                && (b | 0x20) & 0x10 == b & 0x10 && (b & !0x20) & 0x10 == b & 0x10)
                by (bit_vector);
        }
    }

    /// Returns the register with the line-output enable bit set as given.
    pub fn with_enable_line_out(self, value: bool) -> (r: Self)
        requires
            self.spec_variant() == MicVariant::External,
        ensures
            r.spec_bits() == (if value {
                self.spec_bits() | 0x20
            } else {
                self.spec_bits() & !0x20
            }),
            r.spec_variant() == self.spec_variant(),
            r.spec_enable_line_out() == value,
            r.spec_power_down() == self.spec_power_down(),
            r.spec_filter_setting() == self.spec_filter_setting(),
            r.spec_interrupt_enable() == self.spec_interrupt_enable(),
            r.spec_interrupt_type() == self.spec_interrupt_type(),
    {
        let mut r = self;
        r.set_enable_line_out(value);
        r
    }
}

/// Law: decoding any byte and re-encoding the resulting register yields the
/// byte unchanged, whichever bit layout the codec is configured for.
pub proof fn lemma_control_encode_of_decode(bits: u8, variant: MicVariant)
    ensures
        ControlRegister::spec_from_bits(bits, variant).spec_bits() == bits,
{
}

/// Law: a register value decodes back from its own encoding; reserved bits
/// are stored opaquely, so no information is lost in either direction.
pub proof fn lemma_control_decode_of_encode(r: ControlRegister)
    ensures
        ControlRegister::spec_from_bits(r.spec_bits(), r.spec_variant()) == r,
{
}

} // verus!
