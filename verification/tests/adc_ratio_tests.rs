use rpiapptmon::adc::{
    config_word, scale_voltage, AdcCh, AdcErr, Ads1115, Channel, ChannelConfig, CompQueueMode,
    ConvMode, DataRate, FullScaleRange,
};
use rpiapptmon::airq::{gas_ratio_micro, AirQuality};
use rpiapptmon::bus::ScriptedBus;
use rpiapptmon::errors::SensorError;
use rpiapptmon::light::{photo_ratio_micro, PhotoResistor};
use rpiapptmon::numeric::{to_i16, to_u16};

fn relative_cfg() -> ChannelConfig {
    ChannelConfig {
        ch: Channel::ChRelAn0,
        mode: ConvMode::SingleShot,
        dr: DataRate::DataRate32PerSec,
        fsr: FullScaleRange::Fsr6p144,
        comp: CompQueueMode::CompQueueNotActvd,
    }
}

#[test]
fn byte_assembly() {
    assert_eq!(to_u16(0x12, 0x34), 0x1234);
    assert_eq!(to_u16(0xFF, 0xFF), 0xFFFF);
    assert_eq!(to_i16(0x7F, 0xFF), 32767);
    assert_eq!(to_i16(0xFF, 0xFF), -1);
    assert_eq!(to_i16(0x80, 0x00), -32768);
}

#[test]
fn config_word_composition() {
    // Trigger bit, mux 100, gain 000, single-shot, 32 SPS, comparator off.
    assert_eq!(config_word(&relative_cfg()), 0xC143);
    let diff = ChannelConfig {
        ch: Channel::ChDiffAn0An1,
        mode: ConvMode::Continuous,
        dr: DataRate::DataRate8PerSec,
        fsr: FullScaleRange::Fsr0p256,
        comp: CompQueueMode::CompQueueAfter1Conv,
    };
    assert_eq!(config_word(&diff), 0x8A00);
}

#[test]
fn full_scale_raw_code_is_one_lsb_from_range() {
    // At the 6.144 V range a full-scale positive code reads about 6.144 V:
    // within one effective count of 187.5 uV on a relative channel.
    let v = scale_voltage(32767, FullScaleRange::Fsr6p144, Channel::ChRelAn0);
    assert_eq!(v, 6_143_812_500_000);
    assert!((6_144_000_000_000 - v).abs() <= 187_500_000);
}

#[test]
fn relative_doubles_differential() {
    let codes = [-32768, -1, 0, 1, 12345, 32767];
    for raw in codes.iter() {
        let rel = scale_voltage(*raw, FullScaleRange::Fsr2p048, Channel::ChRelAn1);
        let diff = scale_voltage(*raw, FullScaleRange::Fsr2p048, Channel::ChDiffAn0An1);
        assert_eq!(rel, 2 * diff);
    }
}

#[test]
fn per_range_scale_constants() {
    assert_eq!(scale_voltage(1, FullScaleRange::Fsr6p144, Channel::ChDiffAn0An1), 93_750_000);
    assert_eq!(scale_voltage(1, FullScaleRange::Fsr4p096, Channel::ChDiffAn0An1), 62_500_000);
    assert_eq!(scale_voltage(1, FullScaleRange::Fsr2p048, Channel::ChDiffAn0An1), 31_250_000);
    assert_eq!(scale_voltage(1, FullScaleRange::Fsr1p024, Channel::ChDiffAn0An1), 15_625_000);
    assert_eq!(scale_voltage(1, FullScaleRange::Fsr0p512, Channel::ChDiffAn0An1), 7_812_500);
    assert_eq!(scale_voltage(1, FullScaleRange::Fsr0p256, Channel::ChDiffAn0An1), 3_906_250);
}

#[test]
fn driver_reads_and_scales() {
    let bus = ScriptedBus::new(
        vec![],
        vec![
            vec![0x80, 0x00], // config poll: conversion ready
            vec![0x7F, 0xFF], // conversion register: 32767
        ],
    );
    let mut adc = Ads1115::new(bus, relative_cfg(), 3_300_000_000_000, 4).unwrap();
    assert_eq!(adc.get_voltage_pv(), Ok(6_143_812_500_000));
    // The composed configuration word was written at construction and
    // re-asserted for the read.
    assert_eq!(adc.bus.word_writes, vec![(0x01, 0xC143), (0x01, 0xC143)]);
}

#[test]
fn driver_conversion_poll_timeout() {
    let bus = ScriptedBus::new(
        vec![],
        vec![vec![0x00, 0x00], vec![0x00, 0x00]], // top bit never set
    );
    let mut adc = Ads1115::new(bus, relative_cfg(), 3_300_000_000_000, 2).unwrap();
    assert_eq!(adc.read_raw(), Err(SensorError::PollTimeout));
}

#[test]
fn photoresistor_unit_ratio() {
    // Vref = 3.3 V, Vsig = 1.65 V: the divider ratio is exactly 1.
    assert_eq!(
        photo_ratio_micro(3_300_000_000_000, 1_650_000_000_000),
        Ok(1_000_000)
    );
}

#[test]
fn photoresistor_zero_guard() {
    assert_eq!(
        photo_ratio_micro(3_300_000_000_000, 0),
        Err(SensorError::ConfigurationInvalid)
    );
}

#[test]
fn gas_ratio_zero_at_reference() {
    // Vout = Vref = 3.3 V: the ratio is exactly zero.
    assert_eq!(gas_ratio_micro(3_300_000_000_000, 3_300_000_000_000), Ok(0));
}

#[test]
fn gas_ratio_zero_guard() {
    assert_eq!(
        gas_ratio_micro(3_300_000_000_000, 0),
        Err(SensorError::ConfigurationInvalid)
    );
}

#[test]
fn gas_ratio_exact_value() {
    // Vref = 3.3 V, Vout = 1.65 V: (2 - 1/2) / 10 = 0.15.
    assert_eq!(
        gas_ratio_micro(3_300_000_000_000, 1_650_000_000_000),
        Ok(150_000)
    );
}

#[test]
fn adc_error_keeps_message() {
    let e = AdcErr::new("saw nothing on the bus");
    assert_eq!(e.message(), "saw nothing on the bus");
}

#[test]
fn ratio_sensors_over_adc_channel() {
    // Conversion code 16384 at the 6.144 V range on a relative channel is
    // about 3.072 V; against a 3.3 V reference the photoresistor ratio is
    // (3.3 - 3.072) / 3.072.
    let bus = ScriptedBus::new(vec![], vec![vec![0x80, 0x00], vec![0x40, 0x00]]);
    let adc = Ads1115::new(bus, relative_cfg(), 3_300_000_000_000, 4).unwrap();
    let mut pr = PhotoResistor::new(adc, 10_000);
    let v = pr.get_ratio().unwrap();
    assert_eq!(v, (3_300_000_000_000i128 - 3_072_000_000_000) as i64 * 1_000_000 / 3_072_000_000_000);

    let bus = ScriptedBus::new(vec![], vec![vec![0x80, 0x00], vec![0x40, 0x00]]);
    let adc = Ads1115::new(bus, relative_cfg(), 3_300_000_000_000, 4).unwrap();
    let mut aq = AirQuality::new(adc);
    let r = aq.get_ratio_rs_r().unwrap();
    let a = 3_300_000_000_000i64 * 1_000_000 / 3_072_000_000_000;
    let b = 3_072_000_000_000i64 * 1_000_000 / 3_300_000_000_000;
    assert_eq!(r, (a - b) / 10);
}

#[test]
fn failed_channel_becomes_adc_error() {
    let bus = ScriptedBus::new(vec![], vec![]);
    let mut adc = Ads1115::new(bus, relative_cfg(), 3_300_000_000_000, 4).unwrap();
    assert!(adc.get_voltage().is_err());
}
