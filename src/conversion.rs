//! Conversion between samples or thresholds and their register encoding, by
//! sample width.
use crate::error::DriverError;
use crate::ic::{Resolution, Resolution12Bit, Resolution16Bit, ResolutionBits};
use crate::register::{
    sample_12, sample_16, threshold_12, threshold_12_in_range, threshold_16, Conversion12,
    Conversion16,
};
use crate::sealed::Sealed;
use vstd::prelude::*;

verus! {

/// Encoding of a comparator threshold.
pub trait ConvertThreshold<E>: Sealed {
    /// Register encoding of `value`, or `None` where the device cannot hold it.
    spec fn threshold(value: i16) -> Option<u16>;

    /// Encodes `value`; fails with `InvalidInputData` where the device cannot
    /// hold it.
    fn convert_threshold(value: i16) -> (r: Result<u16, DriverError<E>>)
        ensures
            r == (match Self::threshold(value) {
                Some(raw) => Ok(raw),
                None => Err(DriverError::<E>::InvalidInputData),
            }),
    ;
}

impl<E> ConvertThreshold<E> for Resolution12Bit {
    open spec fn threshold(value: i16) -> Option<u16> {
        if threshold_12_in_range(value) {
            Some(threshold_12(value))
        } else {
            None
        }
    }

    fn convert_threshold(value: i16) -> (r: Result<u16, DriverError<E>>) {
        match Conversion12::convert_threshold(value) {
            Some(raw) => Ok(raw),
            None => Err(DriverError::InvalidInputData),
        }
    }
}

impl<E> ConvertThreshold<E> for Resolution16Bit {
    open spec fn threshold(value: i16) -> Option<u16> {
        Some(threshold_16(value))
    }

    fn convert_threshold(value: i16) -> (r: Result<u16, DriverError<E>>) {
        Ok(Conversion16::convert_threshold(value))
    }
}

/// Decoding of a sample from the conversion register.
pub trait ConvertMeasurement: Sealed {
    /// The sample that the register value `raw` holds.
    spec fn sample(raw: u16) -> int;

    /// Decodes the register value.
    fn convert_measurement(register_data: u16) -> (r: i16)
        ensures
            r as int == Self::sample(register_data),
    ;
}

impl ConvertMeasurement for Resolution12Bit {
    open spec fn sample(raw: u16) -> int {
        sample_12(raw)
    }

    fn convert_measurement(register_data: u16) -> (r: i16) {
        Conversion12::convert_measurement(register_data)
    }
}

impl ConvertMeasurement for Resolution16Bit {
    open spec fn sample(raw: u16) -> int {
        sample_16(raw)
    }

    fn convert_measurement(register_data: u16) -> (r: i16) {
        Conversion16::convert_measurement(register_data)
    }
}

/// The sample that `raw` holds at the sample width `bits`.
pub open spec fn sample_of(bits: ResolutionBits, raw: u16) -> int {
    match bits {
        ResolutionBits::_12 => sample_12(raw),
        ResolutionBits::_16 => sample_16(raw),
    }
}

/// Decodes a conversion register value at the sample width of the device `IC`.
pub fn convert_measurement<IC: Resolution>(register_data: u16) -> (r: i16)
    ensures
        r as int == sample_of(IC::spec_bits(), register_data),
{
    match IC::bits() {
        ResolutionBits::_12 => Conversion12::convert_measurement(register_data),
        ResolutionBits::_16 => Conversion16::convert_measurement(register_data),
    }
}

/// Encodes a threshold at the sample width of the device `IC`; fails with
/// `InvalidInputData` outside `[-2048, 2047]` at 12 bits.
pub fn convert_threshold<IC: Resolution, E>(value: i16) -> (r: Result<u16, DriverError<E>>)
    ensures
        r == (match IC::spec_bits() {
            ResolutionBits::_12 => if threshold_12_in_range(value) {
                Ok(threshold_12(value))
            } else {
                Err(DriverError::<E>::InvalidInputData)
            },
            ResolutionBits::_16 => Ok(threshold_16(value)),
        }),
{
    match IC::bits() {
        ResolutionBits::_12 => <Resolution12Bit as ConvertThreshold<E>>::convert_threshold(value),
        ResolutionBits::_16 => <Resolution16Bit as ConvertThreshold<E>>::convert_threshold(value),
    }
}

} // verus!
