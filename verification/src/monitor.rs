//! One measurement cycle over the whole sensor set, and the small pieces
//! of the surrounding application that are worth verifying: the
//! write-header-once rule of the CSV logger, the option record, and the
//! first-line cut used on fetched text.
//!
//! A cycle produces one [`CalibratedReading`] with an independent result
//! per quantity: one failing sensor never prevents reading the others.

use crate::adc::{
    Ads1115, Channel, ChannelConfig, CompQueueMode, ConvMode, DataRate, FullScaleRange,
};
use crate::airq::{gas_ratio_micro, spec_gas_ratio, spec_gas_ratio_defined, AirQuality};
use crate::bus::Bus;
use crate::calib::{spec_interp_sum, TwoPointCurve};
use crate::errors::SensorError;
use crate::humidity::{Hts221, Hts221Cfg};
use crate::light::{spec_assemble_channels, Light, LightCfg, RgbcSample};
use crate::press_temp::{press_defined, spec_pressure_pa, spec_temperature_dc, temp_defined, BMP180};
use vstd::prelude::*;

verus! {

/// The divider reference voltage of the gas sensor circuit, in picovolts.
pub const AIRQ_VREF_PV: i64 = 3_300_000_000_000;

/// One cycle's physical-unit outputs, one independent result per quantity:
/// temperature in tenths of a degree Celsius, pressure in pascals,
/// relative humidity in milli-%RH, the gas ratio in micro-units, and the
/// four light channel counts.
pub struct CalibratedReading {
    /// Barometer temperature, tenths of a degree Celsius.
    pub temperature_dc: Result<i64, SensorError>,
    /// Barometric pressure, pascals.
    pub pressure_pa: Result<i32, SensorError>,
    /// Relative humidity, milli-%RH.
    pub humidity_mrh: Result<i64, SensorError>,
    /// Gas ratio, micro-units.
    pub airquality_micro: Result<i64, SensorError>,
    /// The four RGBC channel counts.
    pub light: Result<RgbcSample, SensorError>,
}

/// The full sensor set of the station: one driver per chip, each owning
/// its own transport handle.
pub struct SensorsSet<B: Bus> {
    /// The humidity and temperature driver.
    pub hum: Hts221<B>,
    /// The gas-ratio sensor over its own ADC.
    pub airq: AirQuality<Ads1115<B>>,
    /// The barometer driver.
    pub bmp: BMP180<B>,
    /// The RGBC light driver.
    pub light: Light<B>,
}

/// The ADC acquisition parameters the gas-ratio channel is built with.
pub open spec fn spec_airq_channel_config() -> ChannelConfig {
    ChannelConfig {
        ch: Channel::ChRelAn0,
        mode: ConvMode::SingleShot,
        dr: DataRate::DataRate32PerSec,
        fsr: FullScaleRange::Fsr6p144,
        comp: CompQueueMode::CompQueueNotActvd,
    }
}

impl<B: Bus> SensorsSet<B> {
    /// Constructs every driver on its injected transport: the humidity
    /// sensor with the given configuration, the barometer followed by its
    /// identity self-test, the gas-ratio channel on the first relative ADC
    /// input at the widest range, and the RGBC driver.
    ///
    /// A sensor that cannot be constructed fails the whole set with its
    /// own typed error; nothing aborts.
    pub fn new(
        hum_bus: B,
        bmp_bus: B,
        adc_bus: B,
        light_bus: B,
        hum_cfg: Hts221Cfg,
        light_cfg: LightCfg,
        max_polls: u32,
    ) -> (r: Result<SensorsSet<B>, SensorError>)
        requires
            hum_cfg.wf(),
        ensures
            r matches Ok(s) ==> s.hum.cfg == hum_cfg && s.light.cfg == light_cfg
                && s.airq.adc.vref_pv == AIRQ_VREF_PV && s.airq.adc.cfg
                == spec_airq_channel_config() && s.hum.cfg.wf(),
            r matches Err(e) ==> e == SensorError::BusIoError
                || e == SensorError::DeviceIdentityMismatch,
    {
        let hum = match Hts221::new(hum_bus, hum_cfg, max_polls) {
            Ok(d) => d,
            Err(e) => {
                return Err(e);
            },
        };
        let mut bmp = match BMP180::new(bmp_bus, max_polls) {
            Ok(d) => d,
            Err(e) => {
                return Err(e);
            },
        };
        match bmp.self_test() {
            Ok(()) => (),
            Err(e) => {
                return Err(e);
            },
        };
        let adc_cfg = ChannelConfig {
            ch: Channel::ChRelAn0,
            mode: ConvMode::SingleShot,
            dr: DataRate::DataRate32PerSec,
            fsr: FullScaleRange::Fsr6p144,
            comp: CompQueueMode::CompQueueNotActvd,
        };
        let adc = match Ads1115::new(adc_bus, adc_cfg, AIRQ_VREF_PV, max_polls) {
            Ok(d) => d,
            Err(e) => {
                return Err(e);
            },
        };
        let airq = AirQuality::new(adc);
        let light = match Light::new(light_bus, light_cfg, max_polls) {
            Ok(d) => d,
            Err(e) => {
                return Err(e);
            },
        };
        Ok(SensorsSet { hum, airq, bmp, light })
    }

    /// One measurement cycle: reads every sensor in turn and returns one
    /// independent result per quantity, so a failing sensor leaves the
    /// others' values intact.
    pub fn get_sensors_values(&mut self) -> (r: CalibratedReading)
        requires
            old(self).hum.cfg.wf(),
        ensures
            r.temperature_dc matches Ok(t) ==> exists|ut: int|
                0 <= ut < 0x10000 && #[trigger] temp_defined(old(self).bmp.coeffs, ut) && t
                    == spec_temperature_dc(old(self).bmp.coeffs, ut),
            r.pressure_pa matches Ok(p) ==> exists|ut: int, up: int|
                0 <= ut < 0x10000 && 0 <= up < 0x100_0000 && #[trigger] press_defined(
                    old(self).bmp.coeffs,
                    ut,
                    up,
                    crate::press_temp::Oss::Oss4,
                ) && p == spec_pressure_pa(old(self).bmp.coeffs, ut, up, crate::press_temp::Oss::Oss4),
            r.humidity_mrh matches Ok(h) ==> exists|c: TwoPointCurve, s: int|
                c.wf() && -0x8000 * old(self).hum.cfg.samples <= s <= 0x8000 * old(
                    self,
                ).hum.cfg.samples && h == #[trigger] spec_interp_sum(
                    c,
                    s,
                    old(self).hum.cfg.samples as int,
                ),
            r.airquality_micro matches Ok(g) ==> exists|vout: int|
                #[trigger] spec_gas_ratio_defined(old(self).airq.adc.vref_pv as int, vout) && g
                    == spec_gas_ratio(old(self).airq.adc.vref_pv as int, vout),
            r.light matches Ok(s) ==> exists|d: Seq<u8>|
                d.len() == 8 && s == #[trigger] spec_assemble_channels(d),
            final(self).bmp.coeffs == old(self).bmp.coeffs,
            final(self).hum.cfg == old(self).hum.cfg,
            final(self).airq.adc.vref_pv == old(self).airq.adc.vref_pv,
            final(self).airq.adc.cfg == old(self).airq.adc.cfg,
            final(self).light.cfg == old(self).light.cfg,
    {
        let light = self.light.get_all();
        let temperature_dc = self.bmp.read_temperature();
        let pressure_pa = self.bmp.read_pressure(crate::press_temp::Oss::Oss4);
        let humidity_mrh = self.hum.get_humidity();
        let airquality_micro = match self.airq.adc.get_voltage_pv() {
            Ok(vout) => gas_ratio_micro(self.airq.adc.vref_pv, vout),
            Err(e) => Err(e),
        };
        CalibratedReading { temperature_dc, pressure_pa, humidity_mrh, airquality_micro, light }
    }
}

/// The command-line options of the monitoring program.
#[derive(Debug)]
pub struct CliOpts {
    /// Path of the CSV record file.
    pub output: String,
    /// Measurement period in seconds.
    pub period: u64,
    /// Whether each cycle's values are also printed.
    pub prnt_stdout: bool,
}

impl Default for CliOpts {
    /// The defaults the program starts with: the standard record path, one
    /// measurement per minute, no printing.
    fn default() -> (r: CliOpts)
        ensures
            r.output@ == "/home/alarm/log.csv"@,
            r.period == 60,
            !r.prnt_stdout,
    {
        CliOpts { output: "/home/alarm/log.csv".to_owned(), period: 60, prnt_stdout: false }
    }
}

/// The CSV logger's bookkeeping: the record file path and whether the
/// header line has been written yet. The file writing itself is the
/// caller's business; this type decides when the header is due.
pub struct SnsrValLogger<'a> {
    /// Whether the header line has been written already.
    pub header_written: bool,
    /// Path of the record file.
    pub log_file: &'a str,
}

impl<'a> SnsrValLogger<'a> {
    /// A logger that has not written its header yet.
    pub fn new(f: &'a str) -> (r: SnsrValLogger<'a>)
        ensures
            !r.header_written,
            r.log_file@ == f@,
    {
        SnsrValLogger { header_written: false, log_file: f }
    }

    /// Whether the header line is still due; asking claims the duty, so it
    /// is reported exactly once over the logger's lifetime.
    pub fn take_header_duty(&mut self) -> (b: bool)
        ensures
            b == !old(self).header_written,
            final(self).header_written,
            final(self).log_file == old(self).log_file,
    {
        let b = !self.header_written;
        self.header_written = true;
        b
    }
}

/// The longest newline-free prefix of a byte string: everything up to the
/// first line feed, or the whole string if it has none.
pub fn first_line_bytes(v: &Vec<u8>) -> (r: Vec<u8>)
    ensures
        r@.len() <= v@.len(),
        r@ == v@.take(r@.len() as int),
        forall|k: int| 0 <= k < r@.len() ==> v@[k] != 10u8,
        r@.len() < v@.len() ==> v@[r@.len() as int] == 10u8,
{
    let mut r: Vec<u8> = Vec::new();
    let mut i: usize = 0;
    while i < v.len()
        invariant
            i <= v@.len(),
            r@.len() == i,
            r@ == v@.take(i as int),
            forall|k: int| 0 <= k < i ==> v@[k] != 10u8,
        decreases v@.len() - i,
    {
        if v[i] == 10 {
            return r;
        }
        r.push(v[i]);
        proof {
            assert(r@ =~= v@.take(i + 1));
        }
        i = i + 1;
    }
    r
}

} // verus!
