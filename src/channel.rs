//! Input channels of the converter and the multiplexer field that selects them.
use crate::ic;
use crate::register::{field, is_field, lemma_with_field_unchanged, with_field, Config, MUX_SHIFT};
use crate::sealed::Sealed;
use vstd::prelude::*;

verus! {

/// Selection of the input channel.
#[derive(Debug, Clone, Copy, PartialEq, Eq, Structural)]
pub enum ChannelSelection {
    /// Signal on input 0 measured against input 1.
    DifferentialA0A1,
    /// Signal on input 0 measured against input 3.
    DifferentialA0A3,
    /// Signal on input 1 measured against input 3.
    DifferentialA1A3,
    /// Signal on input 2 measured against input 3.
    DifferentialA2A3,
    /// Single-ended signal on input 0.
    SingleA0,
    /// Single-ended signal on input 1.
    SingleA1,
    /// Single-ended signal on input 2.
    SingleA2,
    /// Single-ended signal on input 3.
    SingleA3,
}

impl ChannelSelection {
    /// Value of the 3-bit multiplexer field that selects the channel.
    pub open spec fn spec_mux_bits(self) -> u16 {
        match self {
            ChannelSelection::DifferentialA0A1 => 0b000,
            ChannelSelection::DifferentialA0A3 => 0b001,
            ChannelSelection::DifferentialA1A3 => 0b010,
            ChannelSelection::DifferentialA2A3 => 0b011,
            ChannelSelection::SingleA0 => 0b100,
            ChannelSelection::SingleA1 => 0b101,
            ChannelSelection::SingleA2 => 0b110,
            ChannelSelection::SingleA3 => 0b111,
        }
    }

    /// Value of the 3-bit multiplexer field that selects the channel.
    pub fn mux_bits(self) -> (r: u16)
        ensures
            r == self.spec_mux_bits(),
    {
        match self {
            ChannelSelection::DifferentialA0A1 => 0b000,
            ChannelSelection::DifferentialA0A3 => 0b001,
            ChannelSelection::DifferentialA1A3 => 0b010,
            ChannelSelection::DifferentialA2A3 => 0b011,
            ChannelSelection::SingleA0 => 0b100,
            ChannelSelection::SingleA1 => 0b101,
            ChannelSelection::SingleA2 => 0b110,
            ChannelSelection::SingleA3 => 0b111,
        }
    }
}

/// Each channel has its own multiplexer value, and each value fits the
/// 3-bit field.
pub proof fn lemma_mux_bits_injective(a: ChannelSelection, b: ChannelSelection)
    ensures
        a.spec_mux_bits() <= 7,
        a.spec_mux_bits() == b.spec_mux_bits() ==> a == b,
{
}

impl Config {
    /// The configuration with the multiplexer field set to select `ch`.
    pub fn with_mux_bits(&self, ch: ChannelSelection) -> (r: Config)
        ensures
            r.bits == with_field(self.bits, MUX_SHIFT, 7, ch.spec_mux_bits()),
    {
        self.with_field(MUX_SHIFT, 7, ch.mux_bits())
    }
}

/// The configuration `bits` already selects `ch` exactly when setting the
/// multiplexer field for `ch` leaves it unchanged.
pub proof fn lemma_mux_selected(bits: u16, ch: ChannelSelection)
    ensures
        (with_field(bits, MUX_SHIFT, 7, ch.spec_mux_bits()) == bits) == (field(bits, MUX_SHIFT, 7)
            == ch.spec_mux_bits()),
{
    assert(is_field(MUX_SHIFT, 7)) by (bit_vector);
    lemma_with_field_unchanged(bits, MUX_SHIFT, 7, ch.spec_mux_bits());
}

/// A channel that the device `T` can measure.
pub trait ChannelId<T>: Sealed {
    /// The channel.
    spec fn spec_channel_id() -> ChannelSelection;

    /// The channel.
    fn channel_id() -> (r: ChannelSelection)
        ensures
            r == Self::spec_channel_id(),
    ;
}

/// Signal on input 0 measured against input 1.
pub struct DifferentialA0A1;

impl Sealed for DifferentialA0A1 {}

/// Signal on input 0 measured against input 3.
pub struct DifferentialA0A3;

impl Sealed for DifferentialA0A3 {}

/// Signal on input 1 measured against input 3.
pub struct DifferentialA1A3;

impl Sealed for DifferentialA1A3 {}

/// Signal on input 2 measured against input 3.
pub struct DifferentialA2A3;

impl Sealed for DifferentialA2A3 {}

/// Single-ended signal on input 0.
pub struct SingleA0;

impl Sealed for SingleA0 {}

/// Single-ended signal on input 1.
pub struct SingleA1;

impl Sealed for SingleA1 {}

/// Single-ended signal on input 2.
pub struct SingleA2;

impl Sealed for SingleA2 {}

/// Single-ended signal on input 3.
pub struct SingleA3;

impl Sealed for SingleA3 {}

impl ChannelId<ic::Ads1013> for DifferentialA0A1 {
    open spec fn spec_channel_id() -> ChannelSelection {
        ChannelSelection::DifferentialA0A1
    }

    fn channel_id() -> (r: ChannelSelection) {
        ChannelSelection::DifferentialA0A1
    }
}

impl ChannelId<ic::Ads1113> for DifferentialA0A1 {
    open spec fn spec_channel_id() -> ChannelSelection {
        ChannelSelection::DifferentialA0A1
    }

    fn channel_id() -> (r: ChannelSelection) {
        ChannelSelection::DifferentialA0A1
    }
}

impl ChannelId<ic::Ads1014> for DifferentialA0A1 {
    open spec fn spec_channel_id() -> ChannelSelection {
        ChannelSelection::DifferentialA0A1
    }

    fn channel_id() -> (r: ChannelSelection) {
        ChannelSelection::DifferentialA0A1
    }
}

impl ChannelId<ic::Ads1114> for DifferentialA0A1 {
    open spec fn spec_channel_id() -> ChannelSelection {
        ChannelSelection::DifferentialA0A1
    }

    fn channel_id() -> (r: ChannelSelection) {
        ChannelSelection::DifferentialA0A1
    }
}

impl ChannelId<ic::Ads1015> for DifferentialA0A1 {
    open spec fn spec_channel_id() -> ChannelSelection {
        ChannelSelection::DifferentialA0A1
    }

    fn channel_id() -> (r: ChannelSelection) {
        ChannelSelection::DifferentialA0A1
    }
}

impl ChannelId<ic::Ads1115> for DifferentialA0A1 {
    open spec fn spec_channel_id() -> ChannelSelection {
        ChannelSelection::DifferentialA0A1
    }

    fn channel_id() -> (r: ChannelSelection) {
        ChannelSelection::DifferentialA0A1
    }
}

impl ChannelId<ic::Ads1015> for DifferentialA0A3 {
    open spec fn spec_channel_id() -> ChannelSelection {
        ChannelSelection::DifferentialA0A3
    }

    fn channel_id() -> (r: ChannelSelection) {
        ChannelSelection::DifferentialA0A3
    }
}

impl ChannelId<ic::Ads1115> for DifferentialA0A3 {
    open spec fn spec_channel_id() -> ChannelSelection {
        ChannelSelection::DifferentialA0A3
    }

    fn channel_id() -> (r: ChannelSelection) {
        ChannelSelection::DifferentialA0A3
    }
}

impl ChannelId<ic::Ads1015> for DifferentialA1A3 {
    open spec fn spec_channel_id() -> ChannelSelection {
        ChannelSelection::DifferentialA1A3
    }

    fn channel_id() -> (r: ChannelSelection) {
        ChannelSelection::DifferentialA1A3
    }
}

impl ChannelId<ic::Ads1115> for DifferentialA1A3 {
    open spec fn spec_channel_id() -> ChannelSelection {
        ChannelSelection::DifferentialA1A3
    }

    fn channel_id() -> (r: ChannelSelection) {
        ChannelSelection::DifferentialA1A3
    }
}

impl ChannelId<ic::Ads1015> for DifferentialA2A3 {
    open spec fn spec_channel_id() -> ChannelSelection {
        ChannelSelection::DifferentialA2A3
    }

    fn channel_id() -> (r: ChannelSelection) {
        ChannelSelection::DifferentialA2A3
    }
}

impl ChannelId<ic::Ads1115> for DifferentialA2A3 {
    open spec fn spec_channel_id() -> ChannelSelection {
        ChannelSelection::DifferentialA2A3
    }

    fn channel_id() -> (r: ChannelSelection) {
        ChannelSelection::DifferentialA2A3
    }
}

impl ChannelId<ic::Ads1015> for SingleA0 {
    open spec fn spec_channel_id() -> ChannelSelection {
        ChannelSelection::SingleA0
    }

    fn channel_id() -> (r: ChannelSelection) {
        ChannelSelection::SingleA0
    }
}

impl ChannelId<ic::Ads1115> for SingleA0 {
    open spec fn spec_channel_id() -> ChannelSelection {
        ChannelSelection::SingleA0
    }

    fn channel_id() -> (r: ChannelSelection) {
        ChannelSelection::SingleA0
    }
}

impl ChannelId<ic::Ads1015> for SingleA1 {
    open spec fn spec_channel_id() -> ChannelSelection {
        ChannelSelection::SingleA1
    }

    fn channel_id() -> (r: ChannelSelection) {
        ChannelSelection::SingleA1
    }
}

impl ChannelId<ic::Ads1115> for SingleA1 {
    open spec fn spec_channel_id() -> ChannelSelection {
        ChannelSelection::SingleA1
    }

    fn channel_id() -> (r: ChannelSelection) {
        ChannelSelection::SingleA1
    }
}

impl ChannelId<ic::Ads1015> for SingleA2 {
    open spec fn spec_channel_id() -> ChannelSelection {
        ChannelSelection::SingleA2
    }

    fn channel_id() -> (r: ChannelSelection) {
        ChannelSelection::SingleA2
    }
}

impl ChannelId<ic::Ads1115> for SingleA2 {
    open spec fn spec_channel_id() -> ChannelSelection {
        ChannelSelection::SingleA2
    }

    fn channel_id() -> (r: ChannelSelection) {
        ChannelSelection::SingleA2
    }
}

impl ChannelId<ic::Ads1015> for SingleA3 {
    open spec fn spec_channel_id() -> ChannelSelection {
        ChannelSelection::SingleA3
    }

    fn channel_id() -> (r: ChannelSelection) {
        ChannelSelection::SingleA3
    }
}

impl ChannelId<ic::Ads1115> for SingleA3 {
    open spec fn spec_channel_id() -> ChannelSelection {
        ChannelSelection::SingleA3
    }

    fn channel_id() -> (r: ChannelSelection) {
        ChannelSelection::SingleA3
    }
}

} // verus!
