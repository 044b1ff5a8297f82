//! HTS221-class humidity and temperature driver: identity check at
//! construction, masked control-register writes, two-point calibration
//! curves read from the device, ready-bit polling, and exact linear
//! interpolation.
//!
//! Temperature is reported in milli-degrees Celsius, relative humidity in
//! milli-%RH. The device's references are stored as eighths of a degree and
//! halves of a percent, so the milli-unit curve values are the register
//! values times 125 and times 500.

use crate::bus::Bus;
use crate::calib::{interpolate, interpolate_sum, spec_interp, spec_interp_sum, TwoPointCurve};
use crate::errors::{check_identity, SensorError};
use crate::numeric::{to_i16, to_u16};
use vstd::prelude::*;

verus! {

/// The device's register map.
#[derive(Clone, Copy, Debug, PartialEq, Eq, Structural)]
pub enum Regs {
    Id,
    AvConf,
    CtrlReg1,
    CtrlReg2,
    CtrlReg3,
    Status,
    HumOutLo,
    HumOutHi,
    TempOutLo,
    TempOutHi,
    H0rHx2,
    H1rhx2,
    T0DegCx8,
    T1DegCx8,
    T1T0Msb,
    H0T0OutLsb,
    H0T0OutMsb,
    H1T0OutLsb,
    H1T0OutMsb,
    T0OutLsb,
    T0OutMsb,
    T1OutLsb,
    T1OutMsb,
}

/// The bus address byte of each register.
pub open spec fn spec_reg_addr(r: Regs) -> u8 {
    match r {
        Regs::Id => 0x0F,
        Regs::AvConf => 0x10,
        Regs::CtrlReg1 => 0x20,
        Regs::CtrlReg2 => 0x21,
        Regs::CtrlReg3 => 0x22,
        Regs::Status => 0x27,
        Regs::HumOutLo => 0x28,
        Regs::HumOutHi => 0x29,
        Regs::TempOutLo => 0x2A,
        Regs::TempOutHi => 0x2B,
        Regs::H0rHx2 => 0x30,
        Regs::H1rhx2 => 0x31,
        Regs::T0DegCx8 => 0x32,
        Regs::T1DegCx8 => 0x33,
        Regs::T1T0Msb => 0x35,
        Regs::H0T0OutLsb => 0x36,
        Regs::H0T0OutMsb => 0x37,
        Regs::H1T0OutLsb => 0x3A,
        Regs::H1T0OutMsb => 0x3B,
        Regs::T0OutLsb => 0x3C,
        Regs::T0OutMsb => 0x3D,
        Regs::T1OutLsb => 0x3E,
        Regs::T1OutMsb => 0x3F,
    }
}

impl Regs {
    /// The bus address byte of this register.
    pub fn addr(self) -> (r: u8)
        ensures
            r == spec_reg_addr(self),
    {
        match self {
            Regs::Id => 0x0F,
            Regs::AvConf => 0x10,
            Regs::CtrlReg1 => 0x20,
            Regs::CtrlReg2 => 0x21,
            Regs::CtrlReg3 => 0x22,
            Regs::Status => 0x27,
            Regs::HumOutLo => 0x28,
            Regs::HumOutHi => 0x29,
            Regs::TempOutLo => 0x2A,
            Regs::TempOutHi => 0x2B,
            Regs::H0rHx2 => 0x30,
            Regs::H1rhx2 => 0x31,
            Regs::T0DegCx8 => 0x32,
            Regs::T1DegCx8 => 0x33,
            Regs::T1T0Msb => 0x35,
            Regs::H0T0OutLsb => 0x36,
            Regs::H0T0OutMsb => 0x37,
            Regs::H1T0OutLsb => 0x3A,
            Regs::H1T0OutMsb => 0x3B,
            Regs::T0OutLsb => 0x3C,
            Regs::T0OutMsb => 0x3D,
            Regs::T1OutLsb => 0x3E,
            Regs::T1OutMsb => 0x3F,
        }
    }
}

/// The identity byte documented for this part.
pub const HUM_ID_VAL: u8 = 0xBC;

/// Control register 1: power-up bit.
pub const CTRL1_PWR_UP: u8 = 0x80;

/// Control register 1: block-data-update bit.
pub const CTRL1_BDU_ENA: u8 = 0x04;

/// Control register 2: reboot bit.
pub const CTRL2_REBOOT: u8 = 0x80;

/// Control register 2: heater bit.
pub const CTRL2_HEATER_ON: u8 = 0x02;

/// Control register 2: single-shot trigger bit.
pub const CTRL2_ONE_SHOT_EN: u8 = 0x01;

/// Control register 3: data-ready polarity bit.
pub const CTRL3_DRDY_H_L: u8 = 0x80;

/// Control register 3: push-pull / open-drain bit.
pub const CTRL3_NPP_OD: u8 = 0x40;

/// Control register 3: data-ready output enable bit.
pub const CTRL3_DRDY_EN: u8 = 0x04;

/// Status register: humidity-ready bit.
pub const STATUS_HUM_DRDY: u8 = 0x02;

/// Status register: temperature-ready bit.
pub const STATUS_TEMP_DRDY: u8 = 0x01;

/// How many internal temperature samples the chip averages.
#[derive(Clone, Copy, Debug, PartialEq, Eq, Structural)]
pub enum TempAvgCfg {
    AvgSmplx2,
    AvgSmplx4,
    AvgSmplx8,
    AvgSmplx16,
    AvgSmplx32,
    AvgSmplx64,
    AvgSmplx128,
    AvgSmplx256,
}

/// The three-bit field value of a temperature averaging setting.
pub open spec fn spec_tavg_bits(v: TempAvgCfg) -> u8 {
    match v {
        TempAvgCfg::AvgSmplx2 => 0,
        TempAvgCfg::AvgSmplx4 => 1,
        TempAvgCfg::AvgSmplx8 => 2,
        TempAvgCfg::AvgSmplx16 => 3,
        TempAvgCfg::AvgSmplx32 => 4,
        TempAvgCfg::AvgSmplx64 => 5,
        TempAvgCfg::AvgSmplx128 => 6,
        TempAvgCfg::AvgSmplx256 => 7,
    }
}

impl TempAvgCfg {
    /// The three-bit field value written to the averaging register.
    pub fn bits(self) -> (r: u8)
        ensures
            r == spec_tavg_bits(self),
    {
        match self {
            TempAvgCfg::AvgSmplx2 => 0,
            TempAvgCfg::AvgSmplx4 => 1,
            TempAvgCfg::AvgSmplx8 => 2,
            TempAvgCfg::AvgSmplx16 => 3,
            TempAvgCfg::AvgSmplx32 => 4,
            TempAvgCfg::AvgSmplx64 => 5,
            TempAvgCfg::AvgSmplx128 => 6,
            TempAvgCfg::AvgSmplx256 => 7,
        }
    }
}

/// How many internal humidity samples the chip averages.
#[derive(Clone, Copy, Debug, PartialEq, Eq, Structural)]
pub enum HumAvgCfg {
    AvgSmplx4,
    AvgSmplx8,
    AvgSmplx16,
    AvgSmplx32,
    AvgSmplx64,
    AvgSmplx128,
    AvgSmplx256,
    AvgSmplx512,
}

/// The three-bit field value of a humidity averaging setting.
pub open spec fn spec_havg_bits(v: HumAvgCfg) -> u8 {
    match v {
        HumAvgCfg::AvgSmplx4 => 0,
        HumAvgCfg::AvgSmplx8 => 1,
        HumAvgCfg::AvgSmplx16 => 2,
        HumAvgCfg::AvgSmplx32 => 3,
        HumAvgCfg::AvgSmplx64 => 4,
        HumAvgCfg::AvgSmplx128 => 5,
        HumAvgCfg::AvgSmplx256 => 6,
        HumAvgCfg::AvgSmplx512 => 7,
    }
}

impl HumAvgCfg {
    /// The three-bit field value written to the averaging register.
    pub fn bits(self) -> (r: u8)
        ensures
            r == spec_havg_bits(self),
    {
        match self {
            HumAvgCfg::AvgSmplx4 => 0,
            HumAvgCfg::AvgSmplx8 => 1,
            HumAvgCfg::AvgSmplx16 => 2,
            HumAvgCfg::AvgSmplx32 => 3,
            HumAvgCfg::AvgSmplx64 => 4,
            HumAvgCfg::AvgSmplx128 => 5,
            HumAvgCfg::AvgSmplx256 => 6,
            HumAvgCfg::AvgSmplx512 => 7,
        }
    }
}

/// The output data rate: single-shot conversions or a periodic rate.
#[derive(Clone, Copy, Debug, PartialEq, Eq, Structural)]
pub enum OutDataRate {
    SingleShot,
    DataRate1Hz,
    DataRate7Hz,
    DataRate12p5Hz,
}

/// The two-bit field value of an output data rate.
pub open spec fn spec_odr_bits(v: OutDataRate) -> u8 {
    match v {
        OutDataRate::SingleShot => 0,
        OutDataRate::DataRate1Hz => 1,
        OutDataRate::DataRate7Hz => 2,
        OutDataRate::DataRate12p5Hz => 3,
    }
}

impl OutDataRate {
    /// The two-bit field value written to control register 1.
    pub fn bits(self) -> (r: u8)
        ensures
            r == spec_odr_bits(self),
    {
        match self {
            OutDataRate::SingleShot => 0,
            OutDataRate::DataRate1Hz => 1,
            OutDataRate::DataRate7Hz => 2,
            OutDataRate::DataRate12p5Hz => 3,
        }
    }
}

/// The construction-time configuration of the driver.
///
/// `samples` is how many single-shot conversions one humidity measurement
/// averages; it must be at least 1 and at most 65536.
#[derive(Clone, Copy, Debug, PartialEq, Eq, Structural)]
pub struct Hts221Cfg {
    /// Internal humidity averaging written to the averaging register.
    pub havg: HumAvgCfg,
    /// Internal temperature averaging written to the averaging register.
    pub tavg: TempAvgCfg,
    /// Output data rate field of control register 1.
    pub odr: OutDataRate,
    /// Base value of control register 1.
    pub cfg1: u8,
    /// Base value of control register 2.
    pub cfg2: u8,
    /// Base value of control register 3.
    pub cfg3: u8,
    /// How many raw codes one humidity measurement averages.
    pub samples: u32,
}

impl Hts221Cfg {
    /// A configuration is well formed when its sample count can serve as
    /// the averaging denominator.
    pub open spec fn wf(self) -> bool {
        1 <= self.samples <= 0x1_0000
    }
}

impl Default for Hts221Cfg {
    /// Powered up with block data update, single-shot conversions, minimal
    /// averaging, and one sample per measurement.
    fn default() -> (r: Hts221Cfg)
        ensures
            r.havg == HumAvgCfg::AvgSmplx4,
            r.tavg == TempAvgCfg::AvgSmplx4,
            r.odr == OutDataRate::SingleShot,
            r.cfg1 == CTRL1_PWR_UP | CTRL1_BDU_ENA,
            r.cfg2 == CTRL2_ONE_SHOT_EN,
            r.cfg3 == 0,
            r.samples == 1,
            r.wf(),
    {
        Hts221Cfg {
            havg: HumAvgCfg::AvgSmplx4,
            tavg: TempAvgCfg::AvgSmplx4,
            odr: OutDataRate::SingleShot,
            cfg1: CTRL1_PWR_UP | CTRL1_BDU_ENA,
            cfg2: CTRL2_ONE_SHOT_EN,
            cfg3: 0,
            samples: 1,
        }
    }
}

/// The masked value written to control register 1 at construction.
pub open spec fn spec_ctrl1_value(cfg: Hts221Cfg) -> u8 {
    (cfg.cfg1 | spec_odr_bits(cfg.odr)) & 0x87
}

/// The masked value written to control register 2 at construction.
pub open spec fn spec_ctrl2_value(cfg: Hts221Cfg) -> u8 {
    cfg.cfg2 & 0x83
}

/// The masked value written to control register 3 at construction.
pub open spec fn spec_ctrl3_value(cfg: Hts221Cfg) -> u8 {
    cfg.cfg3 & 0xC4
}

/// The masked value written to the averaging register at construction.
pub open spec fn spec_avconf_value(cfg: Hts221Cfg) -> u8 {
    ((spec_tavg_bits(cfg.tavg) << 3) | spec_havg_bits(cfg.havg)) & 0x3F
}

/// The masked value written to control register 1 at construction: the
/// configured base with the data-rate field, restricted to the documented
/// bits.
pub fn ctrl1_value(cfg: &Hts221Cfg) -> (r: u8)
    ensures
        r == spec_ctrl1_value(*cfg),
{
    (cfg.cfg1 | cfg.odr.bits()) & 0x87
}

/// The masked value written to control register 2 at construction.
pub fn ctrl2_value(cfg: &Hts221Cfg) -> (r: u8)
    ensures
        r == spec_ctrl2_value(*cfg),
{
    cfg.cfg2 & 0x83
}

/// The masked value written to control register 3 at construction.
pub fn ctrl3_value(cfg: &Hts221Cfg) -> (r: u8)
    ensures
        r == spec_ctrl3_value(*cfg),
{
    cfg.cfg3 & 0xC4
}

/// The masked value written to the averaging register at construction.
pub fn avconf_value(cfg: &Hts221Cfg) -> (r: u8)
    ensures
        r == spec_avconf_value(*cfg),
{
    ((cfg.tavg.bits() << 3) | cfg.havg.bits()) & 0x3F
}

/// The control register 1 value used while measuring: the configured base
/// with the power-up bit set.
pub open spec fn spec_ctrl1_powered(cfg: Hts221Cfg) -> u8 {
    cfg.cfg1 | CTRL1_PWR_UP
}

/// The control register 1 value used while measuring.
pub fn ctrl1_powered(cfg: &Hts221Cfg) -> (r: u8)
    ensures
        r == spec_ctrl1_powered(*cfg),
{
    cfg.cfg1 | CTRL1_PWR_UP
}

/// The control register 2 value that triggers one single-shot conversion:
/// the configured base with the one-shot bit set.
pub open spec fn spec_ctrl2_oneshot(cfg: Hts221Cfg) -> u8 {
    cfg.cfg2 | CTRL2_ONE_SHOT_EN
}

/// The control register 2 value that triggers one single-shot conversion.
pub fn ctrl2_oneshot(cfg: &Hts221Cfg) -> (r: u8)
    ensures
        r == spec_ctrl2_oneshot(*cfg),
{
    cfg.cfg2 | CTRL2_ONE_SHOT_EN
}

/// The first 10-bit reference temperature in eighths of a degree: its
/// register byte extended by bits 1..0 of the shared extension register.
pub open spec fn spec_t0_deg_x8(msb: u8, reg: u8) -> u16 {
    (((msb & 0x03) as u16) * 256 + reg) as u16
}

/// The second 10-bit reference temperature in eighths of a degree: its
/// register byte extended by bits 3..2 of the shared extension register.
pub open spec fn spec_t1_deg_x8(msb: u8, reg: u8) -> u16 {
    ((((msb & 0x0C) >> 2) as u16) * 256 + reg) as u16
}

/// Reconstructs the first 10-bit reference temperature.
pub fn t0_deg_x8(msb: u8, reg: u8) -> (r: u16)
    ensures
        r == spec_t0_deg_x8(msb, reg),
        r < 0x400,
{
    proof {
        assert(msb & 0x03 < 4) by (bit_vector);
    }
    ((msb & 0x03) as u16) * 256 + (reg as u16)
}

/// Reconstructs the second 10-bit reference temperature.
pub fn t1_deg_x8(msb: u8, reg: u8) -> (r: u16)
    ensures
        r == spec_t1_deg_x8(msb, reg),
        r < 0x400,
{
    proof {
        assert((msb & 0x0C) >> 2 < 4) by (bit_vector);
    }
    (((msb & 0x0C) >> 2) as u16) * 256 + (reg as u16)
}

/// Builds the temperature calibration curve from the raw reference
/// registers: raw codes on the x axis, the reconstructed 10-bit reference
/// temperatures in milli-degrees (eighths of a degree times 125) on the y
/// axis. Two equal reference output codes are a singular calibration.
pub fn temperature_reference_curve(
    t0_reg: u8,
    t1_reg: u8,
    msb: u8,
    t0_out: u16,
    t1_out: u16,
) -> (r: Result<TwoPointCurve, SensorError>)
    ensures
        t0_out != t1_out ==> (r matches Ok(c) && c == (TwoPointCurve {
            x0: t0_out as i32,
            y0: (spec_t0_deg_x8(msb, t0_reg) * 125) as i64,
            x1: t1_out as i32,
            y1: (spec_t1_deg_x8(msb, t1_reg) * 125) as i64,
        }) && c.wf()),
        t0_out == t1_out ==> r == Err::<TwoPointCurve, SensorError>(
            SensorError::SingularCalibration,
        ),
{
    let y0: i64 = (t0_deg_x8(msb, t0_reg) as i64) * 125;
    let y1: i64 = (t1_deg_x8(msb, t1_reg) as i64) * 125;
    TwoPointCurve::new(t0_out as i32, y0, t1_out as i32, y1)
}

/// Builds the humidity calibration curve from the raw reference registers:
/// signed raw codes on the x axis, the reference humidities in milli-%RH
/// (halves of a percent times 500) on the y axis. Two equal reference
/// output codes are a singular calibration.
pub fn humidity_reference_curve(h0_out: i16, h1_out: i16, h0_rh_x2: u8, h1_rh_x2: u8) -> (r:
    Result<TwoPointCurve, SensorError>)
    ensures
        h0_out != h1_out ==> (r matches Ok(c) && c == (TwoPointCurve {
            x0: h0_out as i32,
            y0: (h0_rh_x2 * 500) as i64,
            x1: h1_out as i32,
            y1: (h1_rh_x2 * 500) as i64,
        }) && c.wf()),
        h0_out == h1_out ==> r == Err::<TwoPointCurve, SensorError>(
            SensorError::SingularCalibration,
        ),
{
    let y0: i64 = (h0_rh_x2 as i64) * 500;
    let y1: i64 = (h1_rh_x2 as i64) * 500;
    TwoPointCurve::new(h0_out as i32, y0, h1_out as i32, y1)
}

/// Polls the status register until the given ready bit is set, giving up
/// after `max_polls` attempts.
fn wait_status<B: Bus>(bus: &mut B, mask: u8, max_polls: u32) -> (r: Result<(), SensorError>)
    ensures
        r matches Err(e) ==> e == SensorError::BusIoError || e == SensorError::PollTimeout,
{
    let mut i: u32 = 0;
    while i < max_polls
        invariant
            i <= max_polls,
        decreases max_polls - i,
    {
        let status = match bus.read_byte(Regs::Status.addr()) {
            Ok(b) => b,
            Err(e) => {
                return Err(e);
            },
        };
        if status & mask != 0 {
            return Ok(());
        }
        i = i + 1;
    }
    Err(SensorError::PollTimeout)
}

/// The humidity and temperature driver: owns its transport and its
/// configuration, both fixed at construction.
pub struct Hts221<B: Bus> {
    /// The injected transport for this device's bus address.
    pub bus: B,
    /// The configuration the device was set up with.
    pub cfg: Hts221Cfg,
    /// How many times a ready bit is polled before `PollTimeout`.
    pub max_polls: u32,
}

impl<B: Bus> Hts221<B> {
    /// Verifies the device identity, then writes the masked control and
    /// averaging registers.
    ///
    /// An identity register that does not hold the documented byte fails
    /// construction with `DeviceIdentityMismatch` instead of aborting.
    pub fn new(bus: B, cfg: Hts221Cfg, max_polls: u32) -> (r: Result<Hts221<B>, SensorError>)
        requires
            cfg.wf(),
        ensures
            r matches Ok(d) ==> d.cfg == cfg && d.max_polls == max_polls,
            r matches Err(e) ==> e == SensorError::BusIoError
                || e == SensorError::DeviceIdentityMismatch,
    {
        let mut bus = bus;
        let id = match bus.read_byte(Regs::Id.addr()) {
            Ok(b) => b,
            Err(e) => {
                return Err(e);
            },
        };
        match check_identity(id, HUM_ID_VAL) {
            Ok(()) => (),
            Err(e) => {
                return Err(e);
            },
        };
        match bus.write_byte(Regs::CtrlReg1.addr(), ctrl1_value(&cfg)) {
            Ok(()) => (),
            Err(e) => {
                return Err(e);
            },
        };
        match bus.write_byte(Regs::CtrlReg2.addr(), ctrl2_value(&cfg)) {
            Ok(()) => (),
            Err(e) => {
                return Err(e);
            },
        };
        match bus.write_byte(Regs::CtrlReg3.addr(), ctrl3_value(&cfg)) {
            Ok(()) => (),
            Err(e) => {
                return Err(e);
            },
        };
        match bus.write_byte(Regs::AvConf.addr(), avconf_value(&cfg)) {
            Ok(()) => (),
            Err(e) => {
                return Err(e);
            },
        };
        Ok(Hts221 { bus, cfg, max_polls })
    }

    /// Reads one register byte, propagating a transport failure.
    fn reg(&mut self, r: Regs) -> (res: Result<u8, SensorError>)
        ensures
            res matches Err(e) ==> e == SensorError::BusIoError,
            final(self).cfg == old(self).cfg,
            final(self).max_polls == old(self).max_polls,
    {
        self.bus.read_byte(r.addr())
    }

    /// One temperature measurement in milli-degrees Celsius.
    ///
    /// Reads the two 10-bit reference temperatures and the two reference
    /// output codes, triggers a single-shot conversion if configured so,
    /// polls the temperature-ready bit, reads the signed output code, and
    /// interpolates it on the reference curve.
    ///
    /// `SingularCalibration` reports two identical reference output codes.
    pub fn get_temperature(&mut self) -> (r: Result<i64, SensorError>)
        ensures
            r matches Ok(t) ==> exists|c: TwoPointCurve, x: int|
                c.wf() && -0x8000 <= x < 0x8000 && t == #[trigger] spec_interp(c, x),
            r matches Err(e) ==> e == SensorError::BusIoError || e == SensorError::PollTimeout
                || e == SensorError::SingularCalibration,
            final(self).cfg == old(self).cfg,
            final(self).max_polls == old(self).max_polls,
    {
        let pwr = ctrl1_powered(&self.cfg);
        match self.bus.write_byte(Regs::CtrlReg1.addr(), pwr) {
            Ok(()) => (),
            Err(e) => {
                return Err(e);
            },
        };
        let t0_reg = match self.reg(Regs::T0DegCx8) {
            Ok(b) => b,
            Err(e) => {
                return Err(e);
            },
        };
        let t1_reg = match self.reg(Regs::T1DegCx8) {
            Ok(b) => b,
            Err(e) => {
                return Err(e);
            },
        };
        let msb = match self.reg(Regs::T1T0Msb) {
            Ok(b) => b,
            Err(e) => {
                return Err(e);
            },
        };
        let t0_out_l = match self.reg(Regs::T0OutLsb) {
            Ok(b) => b,
            Err(e) => {
                return Err(e);
            },
        };
        let t0_out_m = match self.reg(Regs::T0OutMsb) {
            Ok(b) => b,
            Err(e) => {
                return Err(e);
            },
        };
        let t1_out_l = match self.reg(Regs::T1OutLsb) {
            Ok(b) => b,
            Err(e) => {
                return Err(e);
            },
        };
        let t1_out_m = match self.reg(Regs::T1OutMsb) {
            Ok(b) => b,
            Err(e) => {
                return Err(e);
            },
        };
        let t0_out: u16 = to_u16(t0_out_m, t0_out_l);
        let t1_out: u16 = to_u16(t1_out_m, t1_out_l);
        let curve = match temperature_reference_curve(t0_reg, t1_reg, msb, t0_out, t1_out) {
            Ok(c) => c,
            Err(e) => {
                return Err(e);
            },
        };
        if self.cfg.odr == OutDataRate::SingleShot {
            let trig = ctrl2_oneshot(&self.cfg);
            match self.bus.write_byte(Regs::CtrlReg2.addr(), trig) {
                Ok(()) => (),
                Err(e) => {
                    return Err(e);
                },
            };
        }
        match wait_status(&mut self.bus, STATUS_TEMP_DRDY, self.max_polls) {
            Ok(()) => (),
            Err(e) => {
                return Err(e);
            },
        };
        let tout_l = match self.reg(Regs::TempOutLo) {
            Ok(b) => b,
            Err(e) => {
                return Err(e);
            },
        };
        let tout_m = match self.reg(Regs::TempOutHi) {
            Ok(b) => b,
            Err(e) => {
                return Err(e);
            },
        };
        let tout = to_i16(tout_m, tout_l);
        let t = interpolate(&curve, tout as i64);
        proof {
            assert(t == spec_interp(curve, tout as int));
        }
        Ok(t)
    }

    /// One humidity measurement in milli-%RH.
    ///
    /// Reads the two reference output codes and reference humidities,
    /// clears a pending temperature sample, then runs `cfg.samples`
    /// trigger-poll-read cycles and interpolates the mean raw code on the
    /// reference curve without rounding the mean first.
    ///
    /// `SingularCalibration` reports two identical reference output codes.
    pub fn get_humidity(&mut self) -> (r: Result<i64, SensorError>)
        requires
            old(self).cfg.wf(),
        ensures
            r matches Ok(h) ==> exists|c: TwoPointCurve, s: int|
                c.wf() && -0x8000 * old(self).cfg.samples <= s <= 0x8000 * old(self).cfg.samples
                    && h == #[trigger] spec_interp_sum(c, s, old(self).cfg.samples as int),
            r matches Err(e) ==> e == SensorError::BusIoError || e == SensorError::PollTimeout
                || e == SensorError::SingularCalibration,
            final(self).cfg == old(self).cfg,
            final(self).max_polls == old(self).max_polls,
    {
        let pwr = ctrl1_powered(&self.cfg);
        match self.bus.write_byte(Regs::CtrlReg1.addr(), pwr) {
            Ok(()) => (),
            Err(e) => {
                return Err(e);
            },
        };
        let h0_out_m = match self.reg(Regs::H0T0OutMsb) {
            Ok(b) => b,
            Err(e) => {
                return Err(e);
            },
        };
        let h0_out_l = match self.reg(Regs::H0T0OutLsb) {
            Ok(b) => b,
            Err(e) => {
                return Err(e);
            },
        };
        let h1_out_m = match self.reg(Regs::H1T0OutMsb) {
            Ok(b) => b,
            Err(e) => {
                return Err(e);
            },
        };
        let h1_out_l = match self.reg(Regs::H1T0OutLsb) {
            Ok(b) => b,
            Err(e) => {
                return Err(e);
            },
        };
        let h0_out = to_i16(h0_out_m, h0_out_l);
        let h1_out = to_i16(h1_out_m, h1_out_l);
        let h0_rh = match self.reg(Regs::H0rHx2) {
            Ok(b) => b,
            Err(e) => {
                return Err(e);
            },
        };
        let h1_rh = match self.reg(Regs::H1rhx2) {
            Ok(b) => b,
            Err(e) => {
                return Err(e);
            },
        };
        let curve = match humidity_reference_curve(h0_out, h1_out, h0_rh, h1_rh) {
            Ok(c) => c,
            Err(e) => {
                return Err(e);
            },
        };
        let status = match self.reg(Regs::Status) {
            Ok(b) => b,
            Err(e) => {
                return Err(e);
            },
        };
        if status & STATUS_TEMP_DRDY != 0 {
            match self.reg(Regs::TempOutHi) {
                Ok(_) => (),
                Err(e) => {
                    return Err(e);
                },
            };
        }
        let n: u32 = self.cfg.samples;
        let mut sum: i64 = 0;
        let mut i: u32 = 0;
        while i < n
            invariant
                i <= n,
                n <= 0x1_0000,
                -0x8000 * (i as i64) <= sum <= 0x8000 * (i as i64),
                self.cfg == old(self).cfg,
                self.max_polls == old(self).max_polls,
            decreases n - i,
        {
            if self.cfg.odr == OutDataRate::SingleShot {
                let trig = ctrl2_oneshot(&self.cfg);
                match self.bus.write_byte(Regs::CtrlReg2.addr(), trig) {
                    Ok(()) => (),
                    Err(e) => {
                        return Err(e);
                    },
                };
            }
            match wait_status(&mut self.bus, STATUS_HUM_DRDY, self.max_polls) {
                Ok(()) => (),
                Err(e) => {
                    return Err(e);
                },
            };
            let h_m = match self.reg(Regs::HumOutHi) {
                Ok(b) => b,
                Err(e) => {
                    return Err(e);
                },
            };
            let h_l = match self.reg(Regs::HumOutLo) {
                Ok(b) => b,
                Err(e) => {
                    return Err(e);
                },
            };
            let code = to_i16(h_m, h_l);
            sum = sum + (code as i64);
            i = i + 1;
        }
        let h = interpolate_sum(&curve, sum, n as i64);
        proof {
            assert(h == spec_interp_sum(curve, sum as int, n as int));
        }
        Ok(h)
    }
}

} // verus!
