use rpiapptmon::bus::ScriptedBus;
use rpiapptmon::calib::{interpolate, interpolate_sum, TwoPointCurve};
use rpiapptmon::errors::SensorError;
use rpiapptmon::humidity::{
    avconf_value, ctrl1_powered, ctrl1_value, ctrl2_oneshot, ctrl2_value, ctrl3_value,
    humidity_reference_curve, t0_deg_x8, t1_deg_x8, temperature_reference_curve, Hts221,
    Hts221Cfg, HumAvgCfg, OutDataRate, TempAvgCfg,
};

#[test]
fn interpolation_midpoint_exact() {
    // H0 = 30 %RH at raw 200, H1 = 80 %RH at raw 800: raw 500 is exactly
    // 55 %RH (55000 milli-%RH).
    let c = TwoPointCurve::new(200, 30_000, 800, 80_000).unwrap();
    assert_eq!(interpolate(&c, 500), 55_000);
    assert_eq!(interpolate(&c, 200), 30_000);
    assert_eq!(interpolate(&c, 800), 80_000);
}

#[test]
fn interpolation_monotonic_samples() {
    let c = TwoPointCurve::new(200, 30_000, 800, 80_000).unwrap();
    let mut prev = interpolate(&c, 200);
    let mut x: i64 = 201;
    while x <= 800 {
        let v = interpolate(&c, x);
        assert!(v >= prev);
        prev = v;
        x += 1;
    }
}

#[test]
fn interpolation_reversed_points() {
    // The same line described with the points swapped interpolates to the
    // same values.
    let a = TwoPointCurve::new(200, 30_000, 800, 80_000).unwrap();
    let b = TwoPointCurve::new(800, 80_000, 200, 30_000).unwrap();
    assert_eq!(interpolate(&a, 500), interpolate(&b, 500));
    assert_eq!(interpolate(&a, 357), interpolate(&b, 357));
}

#[test]
fn interpolation_of_mean_without_rounding() {
    let c = TwoPointCurve::new(0, 0, 1000, 100_000).unwrap();
    // Mean of 3 and 4 is 3.5: interpolating the unrounded mean gives 350,
    // not the 300 or 400 of a pre-rounded mean.
    assert_eq!(interpolate_sum(&c, 7, 2), 350);
}

#[test]
fn singular_curve_rejected() {
    assert_eq!(
        TwoPointCurve::new(640, 0, 640, 40_000),
        Err(SensorError::SingularCalibration)
    );
}

#[test]
fn control_register_values() {
    let cfg = Hts221Cfg::default();
    assert_eq!(ctrl1_value(&cfg), 0x84);
    assert_eq!(ctrl2_value(&cfg), 0x01);
    assert_eq!(ctrl3_value(&cfg), 0x00);
    assert_eq!(avconf_value(&cfg), 0x08);
    assert_eq!(cfg.samples, 1);
    assert!(matches!(cfg.odr, OutDataRate::SingleShot));
}

#[test]
fn reference_temperature_reconstruction() {
    // Bits 1..0 of the extension register extend the first reference, bits
    // 3..2 the second.
    assert_eq!(t0_deg_x8(0x03, 0x40), 3 * 256 + 0x40);
    assert_eq!(t1_deg_x8(0x0C, 0x00), 3 * 256);
    assert_eq!(t0_deg_x8(0x0C, 0x10), 0x10);
    assert_eq!(t1_deg_x8(0x03, 0x10), 0x10);
    // The curve carries milli-degrees: eighths of a degree times 125.
    let c = temperature_reference_curve(0x00, 0x40, 0x04, 0, 640).unwrap();
    assert_eq!(c.y0, 0);
    assert_eq!(c.y1, 320 * 125);
    assert_eq!((c.x0, c.x1), (0, 640));
    // Equal reference output codes are singular.
    assert_eq!(
        temperature_reference_curve(0x00, 0x40, 0x04, 640, 640),
        Err(SensorError::SingularCalibration)
    );
}

#[test]
fn reference_humidity_reconstruction() {
    // The curve carries milli-%RH: halves of a percent times 500.
    let c = humidity_reference_curve(200, 800, 60, 160).unwrap();
    assert_eq!((c.x0, c.y0, c.x1, c.y1), (200, 30_000, 800, 80_000));
    assert_eq!(
        humidity_reference_curve(5, 5, 60, 160),
        Err(SensorError::SingularCalibration)
    );
}

#[test]
fn measurement_register_values() {
    let cfg = Hts221Cfg::default();
    assert_eq!(ctrl1_powered(&cfg), 0x84);
    assert_eq!(ctrl2_oneshot(&cfg), 0x01);
}

#[test]
fn averaging_field_values() {
    assert_eq!(TempAvgCfg::AvgSmplx2.bits(), 0);
    assert_eq!(TempAvgCfg::AvgSmplx256.bits(), 7);
    assert_eq!(HumAvgCfg::AvgSmplx4.bits(), 0);
    assert_eq!(HumAvgCfg::AvgSmplx512.bits(), 7);
    assert_eq!(OutDataRate::SingleShot.bits(), 0);
    assert_eq!(OutDataRate::DataRate12p5Hz.bits(), 3);
}

#[test]
fn construction_checks_identity() {
    let bus = ScriptedBus::new(vec![0xBC], vec![]);
    let d = Hts221::new(bus, Hts221Cfg::default(), 4).unwrap();
    // The masked control and averaging registers were written in order.
    assert_eq!(
        d.bus.byte_writes,
        vec![(0x20, 0x84), (0x21, 0x01), (0x22, 0x00), (0x10, 0x08)]
    );

    let bus = ScriptedBus::new(vec![0x42], vec![]);
    assert!(matches!(
        Hts221::new(bus, Hts221Cfg::default(), 4),
        Err(SensorError::DeviceIdentityMismatch)
    ));
}

#[test]
fn driver_temperature_via_curve() {
    // References: 0 degC at output 0, 40 degC at output 640; measured
    // output 320 interpolates to exactly 20 degC (20000 milli-degC).
    let byte_replies = vec![
        0xBC, // identity
        0x00, // T0DegCx8 low byte
        0x40, // T1DegCx8 low byte (320 & 0xFF)
        0x04, // T1T0Msb: T1 extension bit
        0x00, 0x00, // T0_OUT
        0x80, 0x02, // T1_OUT = 640
        0x01, // status: temperature ready
        0x40, 0x01, // TempOut = 320
    ];
    let bus = ScriptedBus::new(byte_replies, vec![]);
    let mut d = Hts221::new(bus, Hts221Cfg::default(), 4).unwrap();
    assert_eq!(d.get_temperature(), Ok(20_000));
}

#[test]
fn driver_humidity_via_curve() {
    // H0 = 30 %RH at output 200, H1 = 80 %RH at output 800, one sample of
    // 500: exactly 55 %RH.
    let byte_replies = vec![
        0xBC, // identity
        0x00, 0xC8, // H0_OUT = 200 (msb, lsb)
        0x03, 0x20, // H1_OUT = 800
        0x3C, // H0 rH x2 = 60
        0xA0, // H1 rH x2 = 160
        0x00, // status: no pending temperature sample
        0x02, // status: humidity ready
        0x01, 0xF4, // HumOut = 500 (hi, lo)
    ];
    let bus = ScriptedBus::new(byte_replies, vec![]);
    let mut d = Hts221::new(bus, Hts221Cfg::default(), 4).unwrap();
    assert_eq!(d.get_humidity(), Ok(55_000));
}

#[test]
fn driver_humidity_averages_raw_codes() {
    let mut cfg = Hts221Cfg::default();
    cfg.samples = 2;
    let byte_replies = vec![
        0xBC, // identity
        0x00, 0x00, // H0_OUT = 0
        0x03, 0xE8, // H1_OUT = 1000
        0x00, // H0 rH x2 = 0
        0xC8, // H1 rH x2 = 200 (100 %RH)
        0x00, // status pre-check
        0x02, 0x00, 0x03, // sample 1: ready, HumOut = 3
        0x02, 0x00, 0x04, // sample 2: ready, HumOut = 4
    ];
    let bus = ScriptedBus::new(byte_replies, vec![]);
    let mut d = Hts221::new(bus, cfg, 4).unwrap();
    // Mean raw code 3.5 of a 0..1000 -> 0..100000 curve: exactly 350.
    assert_eq!(d.get_humidity(), Ok(350));
}

#[test]
fn driver_humidity_singular_references() {
    let byte_replies = vec![
        0xBC, // identity
        0x00, 0xC8, // H0_OUT = 200
        0x00, 0xC8, // H1_OUT = 200 as well: singular
        0x3C, 0xA0, // reference humidities
    ];
    let bus = ScriptedBus::new(byte_replies, vec![]);
    let mut d = Hts221::new(bus, Hts221Cfg::default(), 4).unwrap();
    assert_eq!(d.get_humidity(), Err(SensorError::SingularCalibration));
}

#[test]
fn driver_humidity_poll_timeout() {
    let byte_replies = vec![
        0xBC, // identity
        0x00, 0xC8, 0x03, 0x20, 0x3C, 0xA0, // references
        0x00, // status pre-check
        0x00, 0x00, // humidity never ready
    ];
    let bus = ScriptedBus::new(byte_replies, vec![]);
    let mut d = Hts221::new(bus, Hts221Cfg::default(), 2).unwrap();
    assert_eq!(d.get_humidity(), Err(SensorError::PollTimeout));
}
