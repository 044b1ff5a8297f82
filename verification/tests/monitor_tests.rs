use rpiapptmon::bus::ScriptedBus;
use rpiapptmon::errors::SensorError;
use rpiapptmon::humidity::Hts221Cfg;
use rpiapptmon::light::{Gain, LightCfg, RgbcSample};
use rpiapptmon::monitor::{first_line_bytes, CalibratedReading, CliOpts, SensorsSet, SnsrValLogger};

fn reference_block() -> Vec<u8> {
    // The documented reference coefficients, big-endian.
    let vals: [i32; 11] = [408, -72, -14383, 32741, 32757, 23153, 6190, 4, -32768, -8711, 2868];
    let mut block = Vec::new();
    for v in vals.iter() {
        let u = *v as u16;
        block.push((u >> 8) as u8);
        block.push((u & 0xFF) as u8);
    }
    block
}

fn scripted_station() -> SensorsSet<ScriptedBus> {
    let hum_bus = ScriptedBus::new(
        vec![
            0xBC, // identity
            0x00, 0xC8, // H0_OUT = 200
            0x03, 0x20, // H1_OUT = 800
            0x3C, // H0 rH x2 = 60
            0xA0, // H1 rH x2 = 160
            0x00, // status pre-check
            0x02, // humidity ready
            0x01, 0xF4, // HumOut = 500
        ],
        vec![],
    );
    let bmp_bus = ScriptedBus::new(
        vec![0x55, 0x00, 0x00, 0x00], // identity, then one ready poll per conversion
        vec![
            reference_block(),
            vec![0x6C, 0xFA, 0x00], // temperature read: ut = 27898
            vec![0x6C, 0xFA, 0x00], // pressure read, temperature phase
            vec![0x5D, 0x23, 0x00], // pressure read, pressure phase
        ],
    );
    let adc_bus = ScriptedBus::new(
        vec![],
        vec![
            vec![0x80, 0x00], // conversion ready
            vec![0x7F, 0xFF], // full-scale positive code
        ],
    );
    let light_bus = ScriptedBus::new(
        vec![0x44, 0x01], // identity, then measurement valid
        vec![vec![0x01, 0x02, 0x03, 0x04, 0x05, 0x06, 0x07, 0x08]],
    );
    SensorsSet::new(
        hum_bus,
        bmp_bus,
        adc_bus,
        light_bus,
        Hts221Cfg::default(),
        LightCfg { integ_tenths_ms: 300, wait_tenths_ms: 300, gain: Gain::Gain4x },
        4,
    )
    .unwrap()
}

#[test]
fn full_cycle_is_deterministic() {
    let mut station = scripted_station();
    let r: CalibratedReading = station.get_sensors_values();
    assert_eq!(r.temperature_dc, Ok(150));
    assert_eq!(r.pressure_pa, Ok(69_963));
    assert_eq!(r.humidity_mrh, Ok(55_000));
    assert_eq!(r.airquality_micro, Ok(-132_464));
    assert_eq!(
        r.light,
        Ok(RgbcSample { clear: 0x0201, red: 0x0403, green: 0x0605, blue: 0x0807 })
    );
}

#[test]
fn one_failing_sensor_leaves_the_others() {
    let mut station = scripted_station();
    // Exhaust the humidity script so that sensor alone fails.
    station.hum.bus.byte_replies.clear();
    let r = station.get_sensors_values();
    assert_eq!(r.humidity_mrh, Err(SensorError::BusIoError));
    assert_eq!(r.temperature_dc, Ok(150));
    assert_eq!(r.pressure_pa, Ok(69_963));
    assert_eq!(r.airquality_micro, Ok(-132_464));
    assert!(r.light.is_ok());
}

#[test]
fn station_construction_reports_identity_mismatch() {
    let hum_bus = ScriptedBus::new(vec![0x00], vec![]);
    let bmp_bus = ScriptedBus::new(vec![], vec![]);
    let adc_bus = ScriptedBus::new(vec![], vec![]);
    let light_bus = ScriptedBus::new(vec![], vec![]);
    let r = SensorsSet::new(
        hum_bus,
        bmp_bus,
        adc_bus,
        light_bus,
        Hts221Cfg::default(),
        LightCfg { integ_tenths_ms: 300, wait_tenths_ms: 300, gain: Gain::Gain1x },
        4,
    );
    assert!(matches!(r, Err(SensorError::DeviceIdentityMismatch)));
}

#[test]
fn logger_writes_header_once() {
    let path = String::from("values.csv");
    let mut logger = SnsrValLogger::new(&path);
    assert_eq!(logger.log_file, "values.csv");
    assert!(logger.take_header_duty());
    assert!(!logger.take_header_duty());
    assert!(!logger.take_header_duty());
}

#[test]
fn cli_defaults() {
    let opts = CliOpts::default();
    assert_eq!(opts.output, "/home/alarm/log.csv");
    assert_eq!(opts.period, 60);
    assert!(!opts.prnt_stdout);
}

#[test]
fn first_line_cuts_at_newline() {
    assert_eq!(first_line_bytes(&b"203.0.113.7\nrest".to_vec()), b"203.0.113.7".to_vec());
    assert_eq!(first_line_bytes(&b"no newline".to_vec()), b"no newline".to_vec());
    assert_eq!(first_line_bytes(&b"\nx".to_vec()), Vec::<u8>::new());
    assert_eq!(first_line_bytes(&Vec::new()), Vec::<u8>::new());
}
