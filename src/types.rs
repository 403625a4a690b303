//! Settings of the configuration register and the bus address.
use crate::register::{
    with_field, Config, COMP_LAT_SHIFT, COMP_MODE_SHIFT, COMP_POL_SHIFT, COMP_QUE_SHIFT, DR_SHIFT,
    PGA_SHIFT,
};
use vstd::prelude::*;

verus! {

/// Data rate of a 12-bit device (ADS101x).
#[derive(Debug, Default, Clone, Copy, PartialEq, Eq, Ord, PartialOrd, Hash)]
pub enum DataRate12Bit {
    /// 128 SPS
    Sps128,
    /// 250 SPS
    Sps250,
    /// 490 SPS
    Sps490,
    /// 920 SPS
    Sps920,
    #[default]
    /// 1600 SPS (default)
    Sps1600,
    /// 2400 SPS
    Sps2400,
    /// 3300 SPS
    Sps3300,
}

impl DataRate12Bit {
    /// Value of the configuration register field.
    pub open spec fn spec_bits(self) -> u16 {
        match self {
            DataRate12Bit::Sps128 => 0b000,
            DataRate12Bit::Sps250 => 0b001,
            DataRate12Bit::Sps490 => 0b010,
            DataRate12Bit::Sps920 => 0b011,
            DataRate12Bit::Sps1600 => 0b100,
            DataRate12Bit::Sps2400 => 0b101,
            DataRate12Bit::Sps3300 => 0b110,
        }
    }

    /// Value of the configuration register field.
    pub fn bits(self) -> (r: u16)
        ensures
            r == self.spec_bits(),
    {
        match self {
            DataRate12Bit::Sps128 => 0b000,
            DataRate12Bit::Sps250 => 0b001,
            DataRate12Bit::Sps490 => 0b010,
            DataRate12Bit::Sps920 => 0b011,
            DataRate12Bit::Sps1600 => 0b100,
            DataRate12Bit::Sps2400 => 0b101,
            DataRate12Bit::Sps3300 => 0b110,
        }
    }

    /// The configuration `cfg` with this setting in its field.
    pub fn configure(self, cfg: Config) -> (r: Config)
        ensures
            r.bits == with_field(cfg.bits, DR_SHIFT, 7, self.spec_bits()),
    {
        cfg.with_field(DR_SHIFT, 7, self.bits())
    }
}

/// Data rate of a 16-bit device (ADS111x).
#[derive(Debug, Default, Clone, Copy, PartialEq, Eq, Ord, PartialOrd, Hash)]
pub enum DataRate16Bit {
    /// 8 SPS
    Sps8,
    /// 16 SPS
    Sps16,
    /// 32 SPS
    Sps32,
    /// 64 SPS
    Sps64,
    #[default]
    /// 128 SPS (default)
    Sps128,
    /// 250 SPS
    Sps250,
    /// 475 SPS
    Sps475,
    /// 860 SPS
    Sps860,
}

impl DataRate16Bit {
    /// Value of the configuration register field.
    pub open spec fn spec_bits(self) -> u16 {
        match self {
            DataRate16Bit::Sps8 => 0b000,
            DataRate16Bit::Sps16 => 0b001,
            DataRate16Bit::Sps32 => 0b010,
            DataRate16Bit::Sps64 => 0b011,
            DataRate16Bit::Sps128 => 0b100,
            DataRate16Bit::Sps250 => 0b101,
            DataRate16Bit::Sps475 => 0b110,
            DataRate16Bit::Sps860 => 0b111,
        }
    }

    /// Value of the configuration register field.
    pub fn bits(self) -> (r: u16)
        ensures
            r == self.spec_bits(),
    {
        match self {
            DataRate16Bit::Sps8 => 0b000,
            DataRate16Bit::Sps16 => 0b001,
            DataRate16Bit::Sps32 => 0b010,
            DataRate16Bit::Sps64 => 0b011,
            DataRate16Bit::Sps128 => 0b100,
            DataRate16Bit::Sps250 => 0b101,
            DataRate16Bit::Sps475 => 0b110,
            DataRate16Bit::Sps860 => 0b111,
        }
    }

    /// The configuration `cfg` with this setting in its field.
    pub fn configure(self, cfg: Config) -> (r: Config)
        ensures
            r.bits == with_field(cfg.bits, DR_SHIFT, 7, self.spec_bits()),
    {
        cfg.with_field(DR_SHIFT, 7, self.bits())
    }
}

/// Comparator mode (ADS1x14 and ADS1x15 only).
#[derive(Debug, Default, Clone, Copy, PartialEq, Eq, Ord, PartialOrd, Hash)]
pub enum ComparatorMode {
    #[default]
    /// Traditional comparator (default): asserts above the high threshold
    /// until the data falls below the low threshold.
    Traditional,
    /// Window comparator: asserts above the high threshold or below the low threshold.
    Window,
}

impl ComparatorMode {
    /// Value of the configuration register field.
    pub open spec fn spec_bits(self) -> u16 {
        match self {
            ComparatorMode::Traditional => 0,
            ComparatorMode::Window => 1,
        }
    }

    /// Value of the configuration register field.
    pub fn bits(self) -> (r: u16)
        ensures
            r == self.spec_bits(),
    {
        match self {
            ComparatorMode::Traditional => 0,
            ComparatorMode::Window => 1,
        }
    }

    /// The configuration `cfg` with this setting in its field.
    pub fn configure(self, cfg: Config) -> (r: Config)
        ensures
            r.bits == with_field(cfg.bits, COMP_MODE_SHIFT, 1, self.spec_bits()),
    {
        cfg.with_field(COMP_MODE_SHIFT, 1, self.bits())
    }
}

/// Comparator polarity (ADS1x14 and ADS1x15 only).
#[derive(Debug, Default, Clone, Copy, PartialEq, Eq, Ord, PartialOrd, Hash)]
pub enum ComparatorPolarity {
    #[default]
    /// Active low (default)
    ActiveLow,
    /// Active high
    ActiveHigh,
}

impl ComparatorPolarity {
    /// Value of the configuration register field.
    pub open spec fn spec_bits(self) -> u16 {
        match self {
            ComparatorPolarity::ActiveLow => 0,
            ComparatorPolarity::ActiveHigh => 1,
        }
    }

    /// Value of the configuration register field.
    pub fn bits(self) -> (r: u16)
        ensures
            r == self.spec_bits(),
    {
        match self {
            ComparatorPolarity::ActiveLow => 0,
            ComparatorPolarity::ActiveHigh => 1,
        }
    }

    /// The configuration `cfg` with this setting in its field.
    pub fn configure(self, cfg: Config) -> (r: Config)
        ensures
            r.bits == with_field(cfg.bits, COMP_POL_SHIFT, 1, self.spec_bits()),
    {
        cfg.with_field(COMP_POL_SHIFT, 1, self.bits())
    }
}

/// Comparator latching (ADS1x14 and ADS1x15 only): whether the ALERT/RDY pin latches once asserted.
#[derive(Debug, Default, Clone, Copy, PartialEq, Eq, Ord, PartialOrd, Hash)]
pub enum ComparatorLatching {
    #[default]
    /// Nonlatching (default)
    Nonlatching,
    /// Latching: the pin stays asserted until the data is read or an SMBus alert response is sent.
    Latching,
}

impl ComparatorLatching {
    /// Value of the configuration register field.
    pub open spec fn spec_bits(self) -> u16 {
        match self {
            ComparatorLatching::Nonlatching => 0,
            ComparatorLatching::Latching => 1,
        }
    }

    /// Value of the configuration register field.
    pub fn bits(self) -> (r: u16)
        ensures
            r == self.spec_bits(),
    {
        match self {
            ComparatorLatching::Nonlatching => 0,
            ComparatorLatching::Latching => 1,
        }
    }

    /// The configuration `cfg` with this setting in its field.
    pub fn configure(self, cfg: Config) -> (r: Config)
        ensures
            r.bits == with_field(cfg.bits, COMP_LAT_SHIFT, 1, self.spec_bits()),
    {
        cfg.with_field(COMP_LAT_SHIFT, 1, self.bits())
    }
}

/// Comparator alert queue (ADS1x14 and ADS1x15 only). Setting it activates the comparator.
#[derive(Debug, Default, Clone, Copy, PartialEq, Eq, Ord, PartialOrd, Hash)]
pub enum ComparatorQueue {
    /// Assert after one conversion beyond the thresholds
    One,
    /// Assert after two consecutive conversions beyond the thresholds
    Two,
    #[default]
    /// Assert after four consecutive conversions beyond the thresholds (default)
    Four,
}

impl ComparatorQueue {
    /// Value of the configuration register field.
    pub open spec fn spec_bits(self) -> u16 {
        match self {
            ComparatorQueue::One => 0b00,
            ComparatorQueue::Two => 0b01,
            ComparatorQueue::Four => 0b10,
        }
    }

    /// Value of the configuration register field.
    pub fn bits(self) -> (r: u16)
        ensures
            r == self.spec_bits(),
    {
        match self {
            ComparatorQueue::One => 0b00,
            ComparatorQueue::Two => 0b01,
            ComparatorQueue::Four => 0b10,
        }
    }

    /// The configuration `cfg` with this setting in its field.
    pub fn configure(self, cfg: Config) -> (r: Config)
        ensures
            r.bits == with_field(cfg.bits, COMP_QUE_SHIFT, 3, self.spec_bits()),
    {
        cfg.with_field(COMP_QUE_SHIFT, 3, self.bits())
    }
}

/// Full-scale range of the programmable gain amplifier (ADS1x14 and ADS1x15
/// only). The ADS1x13 is fixed at ±2.048 V.
#[derive(Debug, Default, Clone, Copy, PartialEq, Eq, Ord, PartialOrd, Hash)]
pub enum FullScaleRange {
    /// ±6.144 V
    Within6_144V,
    /// ±4.096 V
    Within4_096V,
    #[default]
    /// ±2.048 V (default)
    Within2_048V,
    /// ±1.024 V
    Within1_024V,
    /// ±0.512 V
    Within0_512V,
    /// ±0.256 V
    Within0_256V,
}

impl FullScaleRange {
    /// Value of the configuration register field.
    pub open spec fn spec_bits(self) -> u16 {
        match self {
            FullScaleRange::Within6_144V => 0b000,
            FullScaleRange::Within4_096V => 0b001,
            FullScaleRange::Within2_048V => 0b010,
            FullScaleRange::Within1_024V => 0b011,
            FullScaleRange::Within0_512V => 0b100,
            FullScaleRange::Within0_256V => 0b101,
        }
    }

    /// Value of the configuration register field.
    pub fn bits(self) -> (r: u16)
        ensures
            r == self.spec_bits(),
    {
        match self {
            FullScaleRange::Within6_144V => 0b000,
            FullScaleRange::Within4_096V => 0b001,
            FullScaleRange::Within2_048V => 0b010,
            FullScaleRange::Within1_024V => 0b011,
            FullScaleRange::Within0_512V => 0b100,
            FullScaleRange::Within0_256V => 0b101,
        }
    }

    /// The configuration `cfg` with this setting in its field.
    pub fn configure(self, cfg: Config) -> (r: Config)
        ensures
            r.bits == with_field(cfg.bits, PGA_SHIFT, 7, self.spec_bits()),
    {
        cfg.with_field(PGA_SHIFT, 7, self.bits())
    }
}
/// Bus address of the device, set by what its ADDR pin is connected to.
#[derive(Debug, Default, Clone, Copy, PartialEq, Eq, Ord, PartialOrd, Hash)]
pub enum TargetAddr {
    /// ADDR pin connected to GND (default).
    #[default]
    Gnd,
    /// ADDR pin connected to VDD.
    Vdd,
    /// ADDR pin connected to SDA. Hold SDA low for at least 100 ns after SCL
    /// goes low so that the device decodes the address correctly.
    Sda,
    /// ADDR pin connected to SCL.
    Scl,
}

/// The 7-bit address of the first device of the family.
pub const DEVICE_BASE_ADDRESS: u8 = 0b100_1000;

impl TargetAddr {
    /// Offset of the address from the base address.
    pub open spec fn offset(self) -> u8 {
        match self {
            TargetAddr::Gnd => 0,
            TargetAddr::Vdd => 1,
            TargetAddr::Sda => 2,
            TargetAddr::Scl => 3,
        }
    }

    /// The 7-bit bus address.
    pub fn bits(self) -> (r: u8)
        ensures
            r == DEVICE_BASE_ADDRESS + self.offset(),
    {
        match self {
            TargetAddr::Gnd => 0b100_1000,
            TargetAddr::Vdd => 0b100_1001,
            TargetAddr::Sda => 0b100_1010,
            TargetAddr::Scl => 0b100_1011,
        }
    }
}

} // verus!
