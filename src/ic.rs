//! Markers of the six devices of the family and of their capabilities.
use crate::sealed::Sealed;
use vstd::prelude::*;

verus! {

/// Marker of a 12-bit device (ADS101x).
#[non_exhaustive]
pub struct Resolution12Bit;

/// Marker of a 16-bit device (ADS111x).
#[non_exhaustive]
pub struct Resolution16Bit;

/// Marker of the ADS1013: 12 bits, one input pair, no comparator.
pub struct Ads1013(());

/// Marker of the ADS1113: 16 bits, one input pair, no comparator.
pub struct Ads1113(());

/// Marker of the ADS1014: 12 bits, one input pair, comparator and PGA.
pub struct Ads1014(());

/// Marker of the ADS1114: 16 bits, one input pair, comparator and PGA.
pub struct Ads1114(());

/// Marker of the ADS1015: 12 bits, four multiplexed inputs, comparator and PGA.
pub struct Ads1015(());

/// Marker of the ADS1115: 16 bits, four multiplexed inputs, comparator and PGA.
pub struct Ads1115(());

impl Sealed for Resolution12Bit {}

impl Sealed for Resolution16Bit {}

impl Sealed for Ads1013 {}

impl Sealed for Ads1113 {}

impl Sealed for Ads1014 {}

impl Sealed for Ads1114 {}

impl Sealed for Ads1015 {}

impl Sealed for Ads1115 {}

/// Sample width of a device.
#[derive(Debug, Clone, Copy, PartialEq, Eq)]
pub enum ResolutionBits {
    /// 12-bit samples, left-justified in the conversion register.
    _12,
    /// 16-bit samples.
    _16,
}

/// The sample width of a device.
pub trait Resolution: Sealed {
    /// The sample width.
    spec fn spec_bits() -> ResolutionBits;

    /// The sample width.
    fn bits() -> (r: ResolutionBits)
        ensures
            r == Self::spec_bits(),
    ;
}

impl Resolution for Ads1013 {
    open spec fn spec_bits() -> ResolutionBits {
        ResolutionBits::_12
    }

    fn bits() -> (r: ResolutionBits) {
        ResolutionBits::_12
    }
}

impl Resolution for Ads1014 {
    open spec fn spec_bits() -> ResolutionBits {
        ResolutionBits::_12
    }

    fn bits() -> (r: ResolutionBits) {
        ResolutionBits::_12
    }
}

impl Resolution for Ads1015 {
    open spec fn spec_bits() -> ResolutionBits {
        ResolutionBits::_12
    }

    fn bits() -> (r: ResolutionBits) {
        ResolutionBits::_12
    }
}

impl Resolution for Ads1113 {
    open spec fn spec_bits() -> ResolutionBits {
        ResolutionBits::_16
    }

    fn bits() -> (r: ResolutionBits) {
        ResolutionBits::_16
    }
}

impl Resolution for Ads1114 {
    open spec fn spec_bits() -> ResolutionBits {
        ResolutionBits::_16
    }

    fn bits() -> (r: ResolutionBits) {
        ResolutionBits::_16
    }
}

impl Resolution for Ads1115 {
    open spec fn spec_bits() -> ResolutionBits {
        ResolutionBits::_16
    }

    fn bits() -> (r: ResolutionBits) {
        ResolutionBits::_16
    }
}

/// Devices with a comparator and a programmable gain amplifier.
pub trait Tier2Features: Sealed {}

impl Tier2Features for Ads1014 {}

impl Tier2Features for Ads1114 {}

impl Tier2Features for Ads1015 {}

impl Tier2Features for Ads1115 {}

} // verus!
