use rpiapptmon::bus::ScriptedBus;
use rpiapptmon::errors::SensorError;
use rpiapptmon::light::{
    assemble_channels, integration_reg, Gain, Light, LightCfg, RgbcSample,
};

#[test]
fn integration_encoding_golden() {
    // 30 ms encodes to 226.
    assert_eq!(integration_reg(300), 226);
}

#[test]
fn integration_encoding_clamps() {
    // The lower clamp is 2.4 ms (ceiling 3 ms), the upper 700 ms (capped
    // at 256): both pass through the same formula without wrapping.
    assert_eq!(integration_reg(24), 253);
    assert_eq!(integration_reg(0), 253);
    assert_eq!(integration_reg(23), 253);
    assert_eq!(integration_reg(7000), 0);
    assert_eq!(integration_reg(70_000), 0);
    assert_eq!(integration_reg(2560), 0);
    assert_eq!(integration_reg(2559), 0);
}

#[test]
fn integration_encoding_rounds_up() {
    assert_eq!(integration_reg(301), 225);
    assert_eq!(integration_reg(310), 225);
}

#[test]
fn gain_field_values() {
    assert_eq!(Gain::Gain1x.bits(), 0);
    assert_eq!(Gain::Gain4x.bits(), 1);
    assert_eq!(Gain::Gain16x.bits(), 2);
    assert_eq!(Gain::Gain60x.bits(), 3);
}

#[test]
fn canonical_channel_pairing() {
    let d = vec![0x01, 0x02, 0x03, 0x04, 0x05, 0x06, 0x07, 0x08];
    let s = assemble_channels(&d);
    assert_eq!(
        s,
        RgbcSample { clear: 0x0201, red: 0x0403, green: 0x0605, blue: 0x0807 }
    );
}

fn cfg() -> LightCfg {
    LightCfg { integ_tenths_ms: 300, wait_tenths_ms: 300, gain: Gain::Gain4x }
}

#[test]
fn construction_writes_and_identity() {
    let bus = ScriptedBus::new(vec![0x44], vec![]);
    let d = Light::new(bus, cfg(), 4).unwrap();
    assert_eq!(
        d.bus.byte_writes,
        vec![(0x80, 0x01), (0x81, 226), (0x83, 226), (0x8F, 1)]
    );

    let bus = ScriptedBus::new(vec![0x99], vec![]);
    assert!(matches!(
        Light::new(bus, cfg(), 4),
        Err(SensorError::DeviceIdentityMismatch)
    ));
}

#[test]
fn measurement_assembles_channels() {
    let bus = ScriptedBus::new(
        vec![0x44, 0x01], // identity, then status: measurement valid
        vec![vec![0x01, 0x02, 0x03, 0x04, 0x05, 0x06, 0x07, 0x08]],
    );
    let mut d = Light::new(bus, cfg(), 4).unwrap();
    let s = d.get_all().unwrap();
    assert_eq!(
        s,
        RgbcSample { clear: 0x0201, red: 0x0403, green: 0x0605, blue: 0x0807 }
    );
    // Conversions were enabled for the read and disabled afterwards.
    let w = &d.bus.byte_writes;
    assert_eq!(w[w.len() - 2], (0x80, 0x03));
    assert_eq!(w[w.len() - 1], (0x80, 0x01));
}

#[test]
fn measurement_poll_timeout() {
    let bus = ScriptedBus::new(vec![0x44, 0x00, 0x00], vec![]);
    let mut d = Light::new(bus, cfg(), 2).unwrap();
    assert_eq!(d.get_all(), Err(SensorError::PollTimeout));
}
