use ads1x1x::conversion::{convert_measurement, convert_threshold};
use ads1x1x::ic;
use ads1x1x::{ConvertMeasurement, ConvertThreshold, Conversion12, Conversion16, DriverError};

fn assert_invalid_input_data<E>(result: Result<u16, DriverError<E>>) {
    match result {
        Err(DriverError::InvalidInputData) => (),
        _ => panic!("InvalidInputData error was not returned."),
    }
}

fn threshold<T: ConvertThreshold<()>>(value: i16) -> u16 {
    T::convert_threshold(value).unwrap()
}

#[test]
fn convert_measurement_12_bits() {
    assert_eq!(0, ic::Resolution12Bit::convert_measurement(0));
    assert_eq!(2047, ic::Resolution12Bit::convert_measurement(0x7FFF));
    assert_eq!(-2048, ic::Resolution12Bit::convert_measurement(0x8000));
    assert_eq!(-1, ic::Resolution12Bit::convert_measurement(0xFFFF));
}

#[test]
fn convert_measurement_16_bits() {
    assert_eq!(0, ic::Resolution16Bit::convert_measurement(0));
    assert_eq!(32767, ic::Resolution16Bit::convert_measurement(0x7FFF));
    assert_eq!(-32768, ic::Resolution16Bit::convert_measurement(0x8000));
    assert_eq!(-1, ic::Resolution16Bit::convert_measurement(0xFFFF));
}

#[test]
fn check_assert_matches() {
    assert_invalid_input_data::<()>(Err(DriverError::InvalidInputData));
}

#[test]
#[should_panic]
fn check_assert_fails() {
    assert_invalid_input_data::<()>(Ok(0));
}

#[test]
fn convert_threshold_12_bits() {
    assert_invalid_input_data::<()>(ic::Resolution12Bit::convert_threshold(2048));
    assert_invalid_input_data::<()>(ic::Resolution12Bit::convert_threshold(-2049));
    assert_eq!(0, threshold::<ic::Resolution12Bit>(0));
    assert_eq!(0x7FF0, threshold::<ic::Resolution12Bit>(2047));
    assert_eq!(0x8000, threshold::<ic::Resolution12Bit>(-2048));
    assert_eq!(0xFFF0, threshold::<ic::Resolution12Bit>(-1));
}

#[test]
fn convert_threshold_16_bits() {
    assert_eq!(0x7FFF, threshold::<ic::Resolution16Bit>(32767));
    assert_eq!(0x8000, threshold::<ic::Resolution16Bit>(-32768));
}

#[test]
fn tier1_convert_12_bits() {
    assert_invalid_input_data(convert_threshold::<ic::Ads1013, ()>(2048));
    assert_invalid_input_data(convert_threshold::<ic::Ads1013, ()>(-2049));

    assert_eq!(0, convert_threshold::<ic::Ads1013, ()>(0).unwrap());
    assert_eq!(0x7FF0, convert_threshold::<ic::Ads1013, ()>(2047).unwrap());
    assert_eq!(0x8000, convert_threshold::<ic::Ads1013, ()>(-2048).unwrap());
    assert_eq!(0xFFF0, convert_threshold::<ic::Ads1013, ()>(-1).unwrap());
}

#[test]
fn tier1_convert_16_bits() {
    assert_eq!(0x7FFF, convert_threshold::<ic::Ads1113, ()>(32767).unwrap());
    assert_eq!(0x8000, convert_threshold::<ic::Ads1113, ()>(-32768).unwrap());
}

#[test]
fn mod_convert_12_bits() {
    assert_eq!(0, convert_measurement::<ic::Ads1013>(0));
    assert_eq!(2047, convert_measurement::<ic::Ads1013>(0x7FFF));
    assert_eq!(-2048, convert_measurement::<ic::Ads1013>(0x8000));
    assert_eq!(-1, convert_measurement::<ic::Ads1013>(0xFFFF));
}

#[test]
fn mod_convert_16_bits() {
    assert_eq!(0, convert_measurement::<ic::Ads1113>(0));
    assert_eq!(32767, convert_measurement::<ic::Ads1113>(0x7FFF));
    assert_eq!(-32768, convert_measurement::<ic::Ads1113>(0x8000));
    assert_eq!(-1, convert_measurement::<ic::Ads1113>(0xFFFF));
}

#[test]
fn convert_measurement_12bit() {
    assert_eq!(0, Conversion12::convert_measurement(0));
    assert_eq!(2047, Conversion12::convert_measurement(0x7FFF));
    assert_eq!(-2048, Conversion12::convert_measurement(0x8000));
    assert_eq!(-1, Conversion12::convert_measurement(0xFFFF));
}

#[test]
fn convert_measurement_16bit() {
    assert_eq!(0, Conversion16::convert_measurement(0));
    assert_eq!(32767, Conversion16::convert_measurement(0x7FFF));
    assert_eq!(-32768, Conversion16::convert_measurement(0x8000));
    assert_eq!(-1, Conversion16::convert_measurement(0xFFFF));
}

#[test]
fn convert_threshold_12bit() {
    assert_eq!(0, Conversion12::convert_threshold(0).unwrap());
    assert_eq!(0x7FF0, Conversion12::convert_threshold(2047).unwrap());
    assert_eq!(0x8000, Conversion12::convert_threshold(-2048).unwrap());
    assert_eq!(0xFFF0, Conversion12::convert_threshold(-1).unwrap());
}

#[test]
fn convert_threshold_12bit_rejects_below_range() {
    assert_eq!(None, Conversion12::convert_threshold(-2049));
    assert_eq!(None, Conversion12::convert_threshold(i16::MIN));
}

#[test]
fn convert_threshold_12bit_rejects_above_range() {
    assert_eq!(None, Conversion12::convert_threshold(2048));
    assert_eq!(None, Conversion12::convert_threshold(i16::MAX));
}

#[test]
fn convert_threshold_16bit() {
    assert_eq!(0x7FFF, Conversion16::convert_threshold(32767));
    assert_eq!(0x8000, Conversion16::convert_threshold(-32768));
}

#[test]
fn threshold_round_trip_12bit_every_value() {
    for value in -2048i16..=2047 {
        let raw = Conversion12::convert_threshold(value).unwrap();
        assert_eq!(value, Conversion12::convert_measurement(raw));
    }
}

#[test]
fn threshold_round_trip_16bit_samples() {
    for value in [i16::MIN, -12345, -1, 0, 1, 4242, i16::MAX] {
        let raw = Conversion16::convert_threshold(value);
        assert_eq!(value, Conversion16::convert_measurement(raw));
    }
}

#[test]
fn measurement_12bit_drops_low_bits() {
    assert_eq!(1, Conversion12::convert_measurement(0x001F));
    assert_eq!(-1, Conversion12::convert_measurement(0xFFF0));
    assert_eq!(-2, Conversion12::convert_measurement(0xFFE7));
    assert_eq!(0x123, Conversion12::convert_measurement(0x1234));
}
