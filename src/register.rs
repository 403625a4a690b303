//! The device's registers: their addresses, the bit layout of the
//! configuration register, and the encoding of samples and thresholds in the
//! conversion and threshold registers.
use vstd::prelude::*;

verus! {

/// Address of the conversion register (read only).
pub const CONVERSION: u8 = 0x00;

/// Address of the configuration register.
pub const CONFIG: u8 = 0x01;

/// Address of the low threshold register.
pub const LOW_TH: u8 = 0x02;

/// Address of the high threshold register.
pub const HIGH_TH: u8 = 0x03;

/// Operational status (read) or single-shot conversion start (write).
pub const OS: u16 = 0b1000_0000_0000_0000;

/// Device operating mode: set for power-down single-shot, clear for continuous.
pub const OP_MODE: u16 = 0b0000_0001_0000_0000;

/// Power-up value of the configuration register.
pub const CONFIG_DEFAULT: u16 = 0x8583;

/// Position of the 3-bit input multiplexer field.
pub const MUX_SHIFT: u16 = 12;

/// Position of the 3-bit programmable gain amplifier field.
pub const PGA_SHIFT: u16 = 9;

/// Position of the 1-bit operating mode field.
pub const MODE_SHIFT: u16 = 8;

/// Position of the 3-bit data rate field.
pub const DR_SHIFT: u16 = 5;

/// Position of the 1-bit comparator mode field.
pub const COMP_MODE_SHIFT: u16 = 4;

/// Position of the 1-bit comparator polarity field.
pub const COMP_POL_SHIFT: u16 = 3;

/// Position of the 1-bit comparator latching field.
pub const COMP_LAT_SHIFT: u16 = 2;

/// Position of the 2-bit comparator queue field.
pub const COMP_QUE_SHIFT: u16 = 0;

/// Value of the comparator queue field that disables the comparator.
pub const COMP_QUE_DISABLED: u16 = 0b11;

/// The value of a field of `width` (a mask of ones: 1, 3 or 7) at `shift`.
pub open spec fn field(bits: u16, shift: u16, width: u16) -> u16 {
    (bits >> shift) & width
}

/// `bits` with the field of `width` at `shift` replaced by `value`, every
/// other bit kept.
pub open spec fn with_field(bits: u16, shift: u16, width: u16, value: u16) -> u16 {
    (bits & !(width << shift)) | ((value & width) << shift)
}

/// The layout of a field of the configuration register.
pub open spec fn is_field(shift: u16, width: u16) -> bool {
    &&& width == 1 || width == 3 || width == 7
    &&& shift <= 15
    &&& (width << shift) >> shift == width
}

/// A field reads back the value it was set to.
pub proof fn lemma_field_read_back(bits: u16, shift: u16, width: u16, value: u16)
    requires
        is_field(shift, width),
        value <= width,
    ensures
        field(with_field(bits, shift, width, value), shift, width) == value,
{
    assert(field(with_field(bits, shift, width, value), shift, width) == value) by (bit_vector)
        requires
            width == 1 || width == 3 || width == 7,
            shift <= 15,
            (width << shift) >> shift == width,
            value <= width,
    ;
}

/// Setting a field leaves every field that does not overlap it unchanged.
pub proof fn lemma_field_others_kept(
    bits: u16,
    shift: u16,
    width: u16,
    value: u16,
    other_shift: u16,
    other_width: u16,
)
    requires
        other_shift <= 15,
        (width << shift) & (other_width << other_shift) == 0,
    ensures
        field(with_field(bits, shift, width, value), other_shift, other_width) == field(
            bits,
            other_shift,
            other_width,
        ),
{
    assert(field(with_field(bits, shift, width, value), other_shift, other_width) == field(
        bits,
        other_shift,
        other_width,
    )) by (bit_vector)
        requires
            other_shift <= 15,
            (width << shift) & (other_width << other_shift) == 0,
    ;
}

/// Writing a field leaves the register unchanged exactly when the field
/// already holds the value.
pub proof fn lemma_with_field_unchanged(bits: u16, shift: u16, width: u16, value: u16)
    requires
        is_field(shift, width),
        value <= width,
    ensures
        (with_field(bits, shift, width, value) == bits) == (field(bits, shift, width) == value),
{
    assert((with_field(bits, shift, width, value) == bits) == (field(bits, shift, width)
        == value)) by (bit_vector)
        requires
            width == 1 || width == 3 || width == 7,
            shift <= 15,
            (width << shift) >> shift == width,
            value <= width,
    ;
}

/// Shadow of the 16-bit configuration register.
///
/// Bit layout, most significant first: OS(1) MUX(3) PGA(3) MODE(1) DR(3)
/// COMP_MODE(1) COMP_POL(1) COMP_LAT(1) COMP_QUE(2).
#[derive(Debug, Clone, Copy, PartialEq, Eq, Structural)]
pub struct Config {
    pub bits: u16,
}

impl Default for Config {
    /// The power-up value of the register.
    fn default() -> (r: Config)
        ensures
            r.bits == CONFIG_DEFAULT,
    {
        Config { bits: CONFIG_DEFAULT }
    }
}

impl Config {
    /// The register with the bits of `mask` set.
    pub fn with_high(&self, mask: u16) -> (r: Config)
        ensures
            r.bits == self.bits | mask,
    {
        Config { bits: self.bits | mask }
    }

    /// The register with the bits of `mask` cleared.
    pub fn with_low(&self, mask: u16) -> (r: Config)
        ensures
            r.bits == self.bits & !mask,
    {
        Config { bits: self.bits & !mask }
    }

    /// Whether every bit of `mask` is set.
    pub fn is_high(&self, mask: u16) -> (r: bool)
        ensures
            r == (self.bits & mask == mask),
    {
        self.bits & mask == mask
    }

    /// The register with the field of `width` at `shift` set to `value`.
    pub fn with_field(&self, shift: u16, width: u16, value: u16) -> (r: Config)
        requires
            shift <= 15,
        ensures
            r.bits == with_field(self.bits, shift, width, value),
    {
        Config { bits: (self.bits & !(width << shift)) | ((value & width) << shift) }
    }

    /// The value of the field of `width` at `shift`.
    pub fn field(&self, shift: u16, width: u16) -> (r: u16)
        requires
            shift <= 15,
        ensures
            r == field(self.bits, shift, width),
    {
        (self.bits >> shift) & width
    }
}

/// A 12-bit sample as the conversion register holds it, left-justified: the
/// register read as a two's-complement value and divided by 16, rounded down.
pub open spec fn sample_12(raw: u16) -> int {
    (raw as i16) as int / 16
}

/// A 16-bit sample: the register read as a two's-complement value.
pub open spec fn sample_16(raw: u16) -> int {
    (raw as i16) as int
}

/// The thresholds that a 12-bit device can hold.
pub open spec fn threshold_12_in_range(value: i16) -> bool {
    -2048 <= value <= 2047
}

/// Register encoding of a 12-bit threshold: the value times 16, in two's
/// complement.
pub open spec fn threshold_12(value: i16) -> u16 {
    (value as int * 16) as u16
}

/// Register encoding of a 16-bit threshold: the value in two's complement.
pub open spec fn threshold_16(value: i16) -> u16 {
    value as u16
}

/// Reading back the encoding of a threshold gives the threshold: for every
/// value in `[-2048, 2047]` at 12 bits, and for every `i16` at 16 bits.
pub proof fn lemma_threshold_round_trip(value: i16)
    ensures
        threshold_12_in_range(value) ==> sample_12(threshold_12(value)) == value,
        sample_16(threshold_16(value)) == value,
{
    if threshold_12_in_range(value) {
        let raw = threshold_12(value);
        assert((raw as i16) as int == (value as int) * 16) by (bit_vector)
            requires
                raw == ((value as int) * 16) as u16,
                -2048 <= value <= 2047,
        ;
    }
    assert(((value as u16) as i16) == value) by (bit_vector);
}

/// Conversion register of a 12-bit device.
pub struct Conversion12(pub u16);

impl Conversion12 {
    /// Encodes a threshold for the threshold registers, or `None` where the
    /// value lies outside `[-2048, 2047]`.
    pub fn convert_threshold(value: i16) -> (r: Option<u16>)
        ensures
            r == (if threshold_12_in_range(value) {
                Some(threshold_12(value))
            } else {
                None
            }),
    {
        if value < -2048 || value > 2047 {
            return None;
        }
        let raw: u16 = (value as u16) << 4u16;
        assert(raw == threshold_12(value)) by (bit_vector)
            requires
                raw == (value as u16) << 4u16,
                -2048 <= value <= 2047,
        ;
        Some(raw)
    }

    /// Decodes a sample: the top twelve bits, sign-extended.
    pub fn convert_measurement(register_data: u16) -> (r: i16)
        ensures
            r as int == sample_12(register_data),
    {
        let value = register_data;
        let is_negative = (value & 0b1000_0000_0000_0000) != 0;
        let r: i16 = if is_negative {
            (0b1111_0000_0000_0000 | (value >> 4u16)) as i16
        } else {
            (value >> 4u16) as i16
        };
        assert((r as int) * 16 <= ((value as i16) as int) && ((value as i16) as int) < (r as int)
            * 16 + 16) by (bit_vector)
            requires
                r == (if (value & 0x8000) != 0 {
                    (0xF000u16 | (value >> 4u16)) as i16
                } else {
                    (value >> 4u16) as i16
                }),
        ;
        r
    }
}

/// Conversion register of a 16-bit device.
pub struct Conversion16(pub u16);

impl Conversion16 {
    /// Encodes a threshold for the threshold registers.
    pub fn convert_threshold(value: i16) -> (r: u16)
        ensures
            r == threshold_16(value),
    {
        value as u16
    }

    /// Decodes a sample.
    pub fn convert_measurement(register_data: u16) -> (r: i16)
        ensures
            r as int == sample_16(register_data),
    {
        register_data as i16
    }
}

} // verus!
