//! Light sensing: the photoresistor ratio over an ADC channel, and the
//! RGBC light/color driver with its clamped integration-time encoding.
//!
//! The photoresistor ratio `(Vref - Vsig) / Vsig` is carried in
//! micro-units with a floor division and a zero guard. The RGBC driver
//! encodes integration and wait times with the documented
//! clamp-then-encode formula, checks the device identity, polls the
//! measurement-valid bit, and assembles the four 16-bit channels from one
//! auto-increment block read with the canonical byte pairing.

use crate::bus::Bus;
use crate::adc::{AdcCh, AdcErr};
use crate::errors::{check_identity, SensorError};
use crate::numeric::{div_floor_i128, lemma_div_floor_bounds, lemma_mul_bounds};
use vstd::arithmetic::div_mod::lemma_div_multiples_vanish;
use vstd::prelude::*;

verus! {

/// The photoresistor divider ratio in micro-units:
/// `((vref - vsig) * 10^6) / vsig`, a floor division.
pub open spec fn spec_photo_ratio(vref: int, vsig: int) -> int {
    ((vref - vsig) * 1_000_000) / vsig
}

/// The formula is defined for a positive signal voltage and a ratio that
/// fits an `i64`.
pub open spec fn spec_photo_ratio_defined(vref: int, vsig: int) -> bool {
    &&& vsig > 0
    &&& i64::MIN <= spec_photo_ratio(vref, vsig) <= i64::MAX
}

/// The photoresistor ratio in micro-units for a reference and a signal
/// voltage in picovolts.
///
/// Returns `ConfigurationInvalid` exactly when the signal voltage is zero
/// or negative — the documented divide-by-zero guard — or when the ratio
/// does not fit an `i64`.
pub fn photo_ratio_micro(vref_pv: i64, vsig_pv: i64) -> (r: Result<i64, SensorError>)
    ensures
        spec_photo_ratio_defined(vref_pv as int, vsig_pv as int) ==> r == Ok::<i64, SensorError>(
            spec_photo_ratio(vref_pv as int, vsig_pv as int) as i64,
        ),
        !spec_photo_ratio_defined(vref_pv as int, vsig_pv as int) ==> r == Err::<i64, SensorError>(
            SensorError::ConfigurationInvalid,
        ),
{
    if vsig_pv <= 0 {
        return Err(SensorError::ConfigurationInvalid);
    }
    proof {
        lemma_mul_bounds(
            vref_pv as int - vsig_pv as int,
            0x1_0000_0000_0000_0000,
            1_000_000,
            1_000_000,
        );
    }
    let num: i128 = ((vref_pv as i128) - (vsig_pv as i128)) * 1_000_000;
    let q: i128 = div_floor_i128(num, vsig_pv as i128);
    proof {
        lemma_div_floor_bounds(num as int, vsig_pv as int);
    }
    if q < (i64::MIN as i128) || q > (i64::MAX as i128) {
        return Err(SensorError::ConfigurationInvalid);
    }
    Ok(q as i64)
}

/// A signal at half the reference gives a ratio of exactly one, in
/// micro-units.
pub proof fn lemma_photo_unit_ratio(s: int)
    requires
        s > 0,
    ensures
        spec_photo_ratio(2 * s, s) == 1_000_000,
{
    assert((2 * s - s) * 1_000_000 == s * 1_000_000) by (nonlinear_arith);
    lemma_div_multiples_vanish(1_000_000, s);
}

/// The photoresistor divider: an owned ADC channel and the fixed resistor
/// value of the divider, kept for documentation.
pub struct PhotoResistor<T: AdcCh> {
    /// The calibrated channel the divider midpoint is read from.
    pub adc_channel: T,
    /// The fixed resistor of the divider, in ohms.
    pub r2_val: u32,
}

impl<T: AdcCh> PhotoResistor<T> {
    /// Wraps a calibrated ADC channel and records the divider resistor.
    pub fn new(adc_channel: T, r2: u32) -> (r: PhotoResistor<T>)
        ensures
            r.adc_channel == adc_channel,
            r.r2_val == r2,
    {
        PhotoResistor { adc_channel, r2_val: r2 }
    }

    /// One divider-ratio measurement in micro-units: reads the signal
    /// voltage and applies the exact formula of [`photo_ratio_micro`] to it
    /// and the channel's reference voltage.
    pub fn get_ratio(&mut self) -> (r: Result<i64, AdcErr>)
        ensures
            r matches Ok(v) ==> exists|vref: int, vsig: int|
                #[trigger] spec_photo_ratio_defined(vref, vsig) && v == spec_photo_ratio(
                    vref,
                    vsig,
                ),
    {
        let vsig = match self.adc_channel.get_voltage() {
            Ok(v) => v,
            Err(e) => {
                return Err(e);
            },
        };
        let vref = self.adc_channel.get_ref_voltage();
        match photo_ratio_micro(vref, vsig) {
            Ok(v) => {
                proof {
                    assert(spec_photo_ratio_defined(vref as int, vsig as int));
                }
                Ok(v)
            },
            Err(_) => Err(AdcErr::new("divider ratio undefined for this voltage")),
        }
    }
}

/// Enable register, with the command bit set.
pub const CMD_ENABLE: u8 = 0x80;

/// Integration-time register, with the command bit set.
pub const CMD_ATIME: u8 = 0x81;

/// Wait-time register, with the command bit set.
pub const CMD_WTIME: u8 = 0x83;

/// Gain control register, with the command bit set.
pub const CMD_CONTROL: u8 = 0x8F;

/// Identity register, with the command bit set.
pub const CMD_ID: u8 = 0x92;

/// Status register, with the command bit set.
pub const CMD_STATUS: u8 = 0x93;

/// First channel-data register, with the command and auto-increment bits
/// set: one block read returns all eight channel bytes.
pub const CMD_CDATA_BLOCK: u8 = 0xB4;

/// Enable register: power-on bit.
pub const ENABLE_PON: u8 = 0x01;

/// Enable register: ADC-conversion enable bit.
pub const ENABLE_AEN: u8 = 0x02;

/// Status register: measurement-valid bit.
pub const STATUS_AVALID: u8 = 0x01;

/// The identity byte documented for this part.
pub const LIGHT_ID_VAL: u8 = 0x44;

/// Milliseconds between two polls of the status register.
pub const POLL_SLEEP_MS: u32 = 10;

/// The analog gain of the four channels.
#[derive(Clone, Copy, Debug, PartialEq, Eq, Structural)]
pub enum Gain {
    Gain1x,
    Gain4x,
    Gain16x,
    Gain60x,
}

/// The two-bit field value of a gain setting.
pub open spec fn spec_gain_bits(g: Gain) -> u8 {
    match g {
        Gain::Gain1x => 0,
        Gain::Gain4x => 1,
        Gain::Gain16x => 2,
        Gain::Gain60x => 3,
    }
}

impl Gain {
    /// The two-bit field value written to the control register.
    pub fn bits(self) -> (r: u8)
        ensures
            r == spec_gain_bits(self),
    {
        match self {
            Gain::Gain1x => 0,
            Gain::Gain4x => 1,
            Gain::Gain16x => 2,
            Gain::Gain60x => 3,
        }
    }
}

/// The clamp-then-encode formula for the integration-time and wait-time
/// registers, over a duration in tenths of a millisecond:
/// `256 - min(256, ceil(clamp(ms, 2.4, 700)))`.
pub open spec fn spec_integration_reg(tenths: int) -> int {
    let clamped = if tenths < 24 {
        24int
    } else if tenths > 7000 {
        7000int
    } else {
        tenths
    };
    let ceil_ms = (clamped + 9) / 10;
    let capped = if ceil_ms > 256 {
        256int
    } else {
        ceil_ms
    };
    256 - capped
}

/// Encodes a duration in tenths of a millisecond into the integration-time
/// or wait-time register: clamped to the supported span, rounded up to
/// whole milliseconds, and subtracted from 256. The result always fits the
/// register: it lies between 0 and 253.
pub fn integration_reg(tenths_ms: u32) -> (r: u8)
    ensures
        r == spec_integration_reg(tenths_ms as int),
        r <= 253,
{
    let clamped: u32 = if tenths_ms < 24 {
        24
    } else if tenths_ms > 7000 {
        7000
    } else {
        tenths_ms
    };
    let ceil_ms: u32 = (clamped + 9) / 10;
    let capped: u32 = if ceil_ms > 256 {
        256
    } else {
        ceil_ms
    };
    (256 - capped) as u8
}

/// One four-channel sample: the 16-bit clear, red, green and blue counts.
#[derive(Clone, Copy, Debug, PartialEq, Eq, Structural)]
pub struct RgbcSample {
    /// The unfiltered (clear) channel count.
    pub clear: u16,
    /// The red channel count.
    pub red: u16,
    /// The green channel count.
    pub green: u16,
    /// The blue channel count.
    pub blue: u16,
}

/// The four channels held in the eight data bytes with the canonical
/// pairing: bytes (0,1) clear, (2,3) red, (4,5) green, (6,7) blue, low
/// byte first in each pair.
pub open spec fn spec_assemble_channels(d: Seq<u8>) -> RgbcSample {
    RgbcSample {
        clear: (d[1] * 256 + d[0]) as u16,
        red: (d[3] * 256 + d[2]) as u16,
        green: (d[5] * 256 + d[4]) as u16,
        blue: (d[7] * 256 + d[6]) as u16,
    }
}

/// Assembles the four 16-bit channel counts from one eight-byte block.
pub fn assemble_channels(d: &Vec<u8>) -> (r: RgbcSample)
    requires
        d@.len() == 8,
    ensures
        r == spec_assemble_channels(d@),
{
    RgbcSample {
        clear: (d[1] as u16) * 256 + (d[0] as u16),
        red: (d[3] as u16) * 256 + (d[2] as u16),
        green: (d[5] as u16) * 256 + (d[4] as u16),
        blue: (d[7] as u16) * 256 + (d[6] as u16),
    }
}

/// The construction-time configuration of the RGBC driver.
#[derive(Clone, Copy, Debug, PartialEq, Eq, Structural)]
pub struct LightCfg {
    /// Integration time in tenths of a millisecond.
    pub integ_tenths_ms: u32,
    /// Wait time in tenths of a millisecond.
    pub wait_tenths_ms: u32,
    /// The analog gain of the four channels.
    pub gain: Gain,
}

/// The RGBC light/color driver: owns its transport and the configuration
/// written at construction.
pub struct Light<B: Bus> {
    /// The injected transport for this device's bus address.
    pub bus: B,
    /// The configuration the device was set up with.
    pub cfg: LightCfg,
    /// How many times the valid bit is polled before `PollTimeout`.
    pub max_polls: u32,
}

/// Polls the status register until the measurement-valid bit is set,
/// pausing between attempts, and giving up after `max_polls` of them.
fn wait_valid<B: Bus>(bus: &mut B, max_polls: u32) -> (r: Result<(), SensorError>)
    ensures
        r matches Err(e) ==> e == SensorError::BusIoError || e == SensorError::PollTimeout,
{
    let mut i: u32 = 0;
    while i < max_polls
        invariant
            i <= max_polls,
        decreases max_polls - i,
    {
        let status = match bus.read_byte(CMD_STATUS) {
            Ok(b) => b,
            Err(e) => {
                return Err(e);
            },
        };
        if status & STATUS_AVALID != 0 {
            return Ok(());
        }
        bus.sleep_ms(POLL_SLEEP_MS);
        i = i + 1;
    }
    Err(SensorError::PollTimeout)
}

impl<B: Bus> Light<B> {
    /// Powers the device on, writes the encoded integration and wait
    /// times and the gain, then checks the device identity.
    ///
    /// An identity register that does not hold the documented byte fails
    /// construction with `DeviceIdentityMismatch` instead of aborting.
    pub fn new(bus: B, cfg: LightCfg, max_polls: u32) -> (r: Result<Light<B>, SensorError>)
        ensures
            r matches Ok(d) ==> d.cfg == cfg && d.max_polls == max_polls,
            r matches Err(e) ==> e == SensorError::BusIoError
                || e == SensorError::DeviceIdentityMismatch,
    {
        let mut bus = bus;
        match bus.write_byte(CMD_ENABLE, ENABLE_PON) {
            Ok(()) => (),
            Err(e) => {
                return Err(e);
            },
        };
        match bus.write_byte(CMD_ATIME, integration_reg(cfg.integ_tenths_ms)) {
            Ok(()) => (),
            Err(e) => {
                return Err(e);
            },
        };
        match bus.write_byte(CMD_WTIME, integration_reg(cfg.wait_tenths_ms)) {
            Ok(()) => (),
            Err(e) => {
                return Err(e);
            },
        };
        match bus.write_byte(CMD_CONTROL, cfg.gain.bits()) {
            Ok(()) => (),
            Err(e) => {
                return Err(e);
            },
        };
        let id = match bus.read_byte(CMD_ID) {
            Ok(b) => b,
            Err(e) => {
                return Err(e);
            },
        };
        match check_identity(id, LIGHT_ID_VAL) {
            Ok(()) => (),
            Err(e) => {
                return Err(e);
            },
        };
        Ok(Light { bus, cfg, max_polls })
    }

    /// One four-channel measurement: enables conversions, polls the
    /// measurement-valid bit, reads the eight channel bytes in one
    /// auto-increment block, disables conversions again to save power, and
    /// assembles the counts with the canonical byte pairing.
    pub fn get_all(&mut self) -> (r: Result<RgbcSample, SensorError>)
        ensures
            r matches Ok(s) ==> exists|d: Seq<u8>|
                d.len() == 8 && s == #[trigger] spec_assemble_channels(d),
            r matches Err(e) ==> e == SensorError::BusIoError || e == SensorError::PollTimeout,
            final(self).cfg == old(self).cfg,
            final(self).max_polls == old(self).max_polls,
    {
        match self.bus.write_byte(CMD_ENABLE, ENABLE_PON | ENABLE_AEN) {
            Ok(()) => (),
            Err(e) => {
                return Err(e);
            },
        };
        match wait_valid(&mut self.bus, self.max_polls) {
            Ok(()) => (),
            Err(e) => {
                return Err(e);
            },
        };
        let d = match self.bus.read_block(CMD_CDATA_BLOCK, 8) {
            Ok(b) => b,
            Err(e) => {
                return Err(e);
            },
        };
        match self.bus.write_byte(CMD_ENABLE, ENABLE_PON) {
            Ok(()) => (),
            Err(e) => {
                return Err(e);
            },
        };
        let s = assemble_channels(&d);
        proof {
            assert(s == spec_assemble_channels(d@));
        }
        Ok(s)
    }
}

} // verus!
