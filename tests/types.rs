use ads1x1x::register::Config;
use ads1x1x::{
    ChannelSelection, ComparatorQueue, DataRate12Bit, DataRate16Bit, FullScaleRange, TargetAddr,
};

#[test]
fn target_addr_default() {
    assert_eq!(0b100_1000, TargetAddr::default().bits());
}

#[test]
fn target_addr_bits() {
    assert_eq!(0b100_1000, TargetAddr::Gnd.bits());
    assert_eq!(0b100_1001, TargetAddr::Vdd.bits());
    assert_eq!(0b100_1010, TargetAddr::Sda.bits());
    assert_eq!(0b100_1011, TargetAddr::Scl.bits());
}

#[test]
fn default_full_scale_range() {
    assert_eq!(FullScaleRange::Within2_048V, FullScaleRange::default());
}

#[test]
fn mux_table_matches_hardware() {
    let table = [
        (ChannelSelection::DifferentialA0A1, 0b000),
        (ChannelSelection::DifferentialA0A3, 0b001),
        (ChannelSelection::DifferentialA1A3, 0b010),
        (ChannelSelection::DifferentialA2A3, 0b011),
        (ChannelSelection::SingleA0, 0b100),
        (ChannelSelection::SingleA1, 0b101),
        (ChannelSelection::SingleA2, 0b110),
        (ChannelSelection::SingleA3, 0b111),
    ];
    for (i, (ch, bits)) in table.iter().enumerate() {
        assert_eq!(*bits, ch.mux_bits());
        for (other, other_bits) in table.iter().skip(i + 1) {
            assert_ne!(ch.mux_bits(), other.mux_bits());
            assert_ne!(*bits, *other_bits);
        }
    }
}

#[test]
fn with_mux_bits_sets_only_the_mux_field() {
    let config = Config::default();
    assert_eq!(0x8583, config.with_mux_bits(ChannelSelection::DifferentialA0A1).bits);
    assert_eq!(0xC583, config.with_mux_bits(ChannelSelection::SingleA0).bits);
    assert_eq!(0xF583, config.with_mux_bits(ChannelSelection::SingleA3).bits);
    assert_eq!(0xB583, config.with_mux_bits(ChannelSelection::DifferentialA2A3).bits);
    let all = Config { bits: 0xFFFF };
    assert_eq!(0x8FFF, all.with_mux_bits(ChannelSelection::DifferentialA0A1).bits);
}

#[test]
fn config_default_is_power_up_value() {
    assert_eq!(0x8583, Config::default().bits);
}

#[test]
fn config_mask_operations() {
    let config = Config { bits: 0x0F0F };
    assert_eq!(0x8F0F, config.with_high(0x8000).bits);
    assert_eq!(0x0E0F, config.with_low(0x0100).bits);
    assert!(config.is_high(0x0101));
    assert!(!config.is_high(0x1001));
    assert_eq!(0x0F0F, config.with_high(0x0001).bits);
    assert_eq!(0x0F0F, config.with_low(0x1000).bits);
}

#[test]
fn data_rate_configure() {
    let config = Config::default();
    assert_eq!(0x8503, DataRate12Bit::Sps128.configure(config).bits);
    assert_eq!(0x85C3, DataRate12Bit::Sps3300.configure(config).bits);
    assert_eq!(0x8583, DataRate12Bit::Sps1600.configure(config).bits);
    assert_eq!(0x8503, DataRate16Bit::Sps8.configure(config).bits);
    assert_eq!(0x85E3, DataRate16Bit::Sps860.configure(config).bits);
    assert_eq!(0x8583, DataRate16Bit::Sps128.configure(config).bits);
}

#[test]
fn full_scale_range_configure() {
    let config = Config::default();
    assert_eq!(0x8183, FullScaleRange::Within6_144V.configure(config).bits);
    assert_eq!(0x8383, FullScaleRange::Within4_096V.configure(config).bits);
    assert_eq!(0x8583, FullScaleRange::Within2_048V.configure(config).bits);
    assert_eq!(0x8783, FullScaleRange::Within1_024V.configure(config).bits);
    assert_eq!(0x8983, FullScaleRange::Within0_512V.configure(config).bits);
    assert_eq!(0x8B83, FullScaleRange::Within0_256V.configure(config).bits);
}

#[test]
fn comparator_queue_configure() {
    let config = Config::default();
    assert_eq!(0x8580, ComparatorQueue::One.configure(config).bits);
    assert_eq!(0x8581, ComparatorQueue::Two.configure(config).bits);
    assert_eq!(0x8582, ComparatorQueue::Four.configure(config).bits);
}
