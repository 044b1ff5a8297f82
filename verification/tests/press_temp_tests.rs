use rpiapptmon::bus::ScriptedBus;
use rpiapptmon::errors::SensorError;
use rpiapptmon::press_temp::{
    compensate_pressure, compensate_temperature, decode_coefficients, raw_pressure_code,
    raw_temperature_code, CalibrationCoefficients, Oss, BMP180,
};

fn reference_coeffs() -> CalibrationCoefficients {
    CalibrationCoefficients {
        ac1: 408,
        ac2: -72,
        ac3: -14383,
        ac4: 32741,
        ac5: 32757,
        ac6: 23153,
        b1: 6190,
        b2: 4,
        mb: -32768,
        mc: -8711,
        md: 2868,
    }
}

fn be16(v: i32) -> (u8, u8) {
    let u = (v as u16) as u16;
    ((u >> 8) as u8, (u & 0xFF) as u8)
}

fn reference_block() -> Vec<u8> {
    let c = reference_coeffs();
    let vals: [i32; 11] = [
        c.ac1 as i32,
        c.ac2 as i32,
        c.ac3 as i32,
        c.ac4 as i32,
        c.ac5 as i32,
        c.ac6 as i32,
        c.b1 as i32,
        c.b2 as i32,
        c.mb as i32,
        c.mc as i32,
        c.md as i32,
    ];
    let mut block = Vec::new();
    for v in vals.iter() {
        let (m, l) = be16(*v);
        block.push(m);
        block.push(l);
    }
    block
}

#[test]
fn golden_temperature() {
    let c = reference_coeffs();
    assert_eq!(compensate_temperature(&c, 27898), Ok(150));
}

#[test]
fn golden_pressure_oss1() {
    let c = reference_coeffs();
    assert_eq!(compensate_pressure(&c, 27898, 23843, Oss::Oss1), Ok(69964));
}

#[test]
fn golden_pressure_oss4() {
    let c = reference_coeffs();
    assert_eq!(compensate_pressure(&c, 27898, 95372, Oss::Oss4), Ok(69963));
}

#[test]
fn singular_temperature_denominator() {
    // With ut == ac6 the first intermediate is zero, so md == 0 makes the
    // denominator zero.
    let mut c = reference_coeffs();
    c.md = 0;
    assert_eq!(
        compensate_temperature(&c, c.ac6 as i32),
        Err(SensorError::SingularCalibration)
    );
}

#[test]
fn decode_reference_block() {
    let block = reference_block();
    assert_eq!(decode_coefficients(&block), reference_coeffs());
}

#[test]
fn raw_temperature_assembly_keeps_top_sixteen_bits() {
    // The third data byte is discarded.
    assert_eq!(raw_temperature_code(&vec![0x6C, 0xFA, 0x00]), 27898);
    assert_eq!(raw_temperature_code(&vec![0x6C, 0xFA, 0xAB]), 27898);
    assert_eq!(raw_temperature_code(&vec![0xFF, 0xFF, 0xFF]), 0xFFFF);
}

#[test]
fn raw_pressure_assembly_shifts_by_oversampling() {
    // The 24-bit code shifted right by 8 - exponent.
    let d = vec![0x5D, 0x23, 0x00];
    assert_eq!(raw_pressure_code(&d, Oss::Oss1), 0x5D2300 >> 8);
    assert_eq!(raw_pressure_code(&d, Oss::Oss2), 0x5D2300 >> 7);
    assert_eq!(raw_pressure_code(&d, Oss::Oss4), 0x5D2300 >> 6);
    assert_eq!(raw_pressure_code(&d, Oss::Oss8), 0x5D2300 >> 5);
}

#[test]
fn oss_mult_and_commands() {
    assert_eq!(Oss::Oss1.mult(), 1);
    assert_eq!(Oss::Oss2.mult(), 2);
    assert_eq!(Oss::Oss4.mult(), 4);
    assert_eq!(Oss::Oss8.mult(), 8);
    assert_eq!(Oss::Oss1.pressure_command(), 0x34);
    assert_eq!(Oss::Oss2.pressure_command(), 0x74);
    assert_eq!(Oss::Oss4.pressure_command(), 0xB4);
    assert_eq!(Oss::Oss8.pressure_command(), 0xF4);
}

#[test]
fn driver_reads_golden_temperature() {
    let bus = ScriptedBus::new(
        vec![0x00], // ready poll: measurement bit clear
        vec![reference_block(), vec![0x6C, 0xFA, 0x00]], // calibration, then ut = 27898
    );
    let mut bmp = BMP180::new(bus, 5).unwrap();
    assert_eq!(bmp.read_temperature(), Ok(150));
}

#[test]
fn driver_reads_golden_pressure() {
    let bus = ScriptedBus::new(
        vec![0x00, 0x00], // one ready poll per conversion
        vec![
            reference_block(),
            vec![0x6C, 0xFA, 0x00], // ut = 27898
            vec![0x5D, 0x23, 0x00], // 24-bit code, >> 8 at Oss1 -> 23843
        ],
    );
    let mut bmp = BMP180::new(bus, 5).unwrap();
    let p = bmp.read_pressure(Oss::Oss1);
    assert_eq!(p, Ok(69964));
    // The trigger command for this oversampling was written to the control
    // register.
    assert_eq!(bmp.bus.byte_writes[0], (0xF4, 0x34));
}

#[test]
fn driver_poll_timeout() {
    let bus = ScriptedBus::new(
        vec![0x20, 0x20, 0x20], // ready bit never clears
        vec![reference_block()],
    );
    let mut bmp = BMP180::new(bus, 3).unwrap();
    assert_eq!(bmp.read_temperature(), Err(SensorError::PollTimeout));
}

#[test]
fn self_test_identity() {
    let bus = ScriptedBus::new(vec![0x55], vec![reference_block()]);
    let mut bmp = BMP180::new(bus, 5).unwrap();
    assert_eq!(bmp.self_test(), Ok(()));

    let bus = ScriptedBus::new(vec![0x42], vec![reference_block()]);
    let mut bmp = BMP180::new(bus, 5).unwrap();
    assert_eq!(bmp.self_test(), Err(SensorError::DeviceIdentityMismatch));
}

#[test]
fn construction_fails_on_bus_error() {
    let bus = ScriptedBus::new(vec![], vec![]);
    assert!(matches!(BMP180::new(bus, 5), Err(SensorError::BusIoError)));
}
