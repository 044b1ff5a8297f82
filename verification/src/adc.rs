//! 16-bit multi-range ADC driver: one configuration word composed from
//! tagged variants, conversion-ready polling, and exact voltage scaling.
//!
//! Voltages are carried in picovolts, so every one of the six full-scale
//! ranges has an exact integer volts-per-count constant. A channel that
//! measures relative to ground doubles the scaled value; a differential
//! channel does not. [`lemma_relative_doubles_differential`] states that
//! rule for every raw code and range.

use crate::bus::Bus;
use crate::errors::SensorError;
use crate::numeric::{lemma_mul_bounds, spec_i16_from_be, to_i16};
use vstd::prelude::*;

verus! {

/// Register holding the latest conversion result.
pub const REG_CONVERSION: u8 = 0x00;

/// The configuration register: trigger bit, channel, range, rate, mode.
pub const REG_CONFIG: u8 = 0x01;

/// Marker for the first single-ended input of a four-channel board.
pub struct Ch1;

/// Marker for the second single-ended input of a four-channel board.
pub struct Ch2;

/// Marker for the third single-ended input of a four-channel board.
pub struct Ch3;

/// Marker for the fourth single-ended input of a four-channel board.
pub struct Ch4;

/// The error reported by an ADC channel: a short message naming what went
/// wrong on the bus or in the configuration.
#[derive(Debug)]
pub struct AdcErr(pub String);

impl AdcErr {
    /// Wraps a message into an ADC channel error.
    pub fn new(msg: &str) -> (r: AdcErr)
        ensures
            r.0@ == msg@,
    {
        AdcErr(msg.to_owned())
    }

    /// The message this error was created with.
    pub fn message(&self) -> (r: &str)
        ensures
            r@ == self.0@,
    {
        self.0.as_str()
    }
}

/// The measured input: one of four inputs against ground ("relative"), or
/// one of the documented input pairs ("differential").
#[derive(Clone, Copy, Debug, PartialEq, Eq, Structural)]
pub enum Channel {
    ChDiffAn0An1,
    ChDiffAn0An3,
    ChDiffAn1An3,
    ChDiffAn2An3,
    ChRelAn0,
    ChRelAn1,
    ChRelAn2,
    ChRelAn3,
}

/// The three-bit multiplexer field of a channel.
pub open spec fn spec_channel_mux(ch: Channel) -> u16 {
    match ch {
        Channel::ChDiffAn0An1 => 0,
        Channel::ChDiffAn0An3 => 1,
        Channel::ChDiffAn1An3 => 2,
        Channel::ChDiffAn2An3 => 3,
        Channel::ChRelAn0 => 4,
        Channel::ChRelAn1 => 5,
        Channel::ChRelAn2 => 6,
        Channel::ChRelAn3 => 7,
    }
}

/// Whether the channel measures one input relative to ground.
pub open spec fn spec_channel_is_relative(ch: Channel) -> bool {
    spec_channel_mux(ch) >= 4
}

impl Channel {
    /// The three-bit multiplexer field of this channel.
    pub fn mux(self) -> (r: u16)
        ensures
            r == spec_channel_mux(self),
    {
        match self {
            Channel::ChDiffAn0An1 => 0,
            Channel::ChDiffAn0An3 => 1,
            Channel::ChDiffAn1An3 => 2,
            Channel::ChDiffAn2An3 => 3,
            Channel::ChRelAn0 => 4,
            Channel::ChRelAn1 => 5,
            Channel::ChRelAn2 => 6,
            Channel::ChRelAn3 => 7,
        }
    }

    /// Whether this channel measures one input relative to ground.
    pub fn is_relative(self) -> (r: bool)
        ensures
            r == spec_channel_is_relative(self),
    {
        self.mux() >= 4
    }
}

/// Continuous conversions, or one conversion per trigger.
#[derive(Clone, Copy, Debug, PartialEq, Eq, Structural)]
pub enum ConvMode {
    Continuous,
    SingleShot,
}

/// The mode bit of the configuration word.
pub open spec fn spec_mode_bit(m: ConvMode) -> u16 {
    match m {
        ConvMode::Continuous => 0,
        ConvMode::SingleShot => 1,
    }
}

impl ConvMode {
    /// The mode bit of the configuration word.
    pub fn bit(self) -> (r: u16)
        ensures
            r == spec_mode_bit(self),
    {
        match self {
            ConvMode::Continuous => 0,
            ConvMode::SingleShot => 1,
        }
    }
}

/// Conversions per second.
#[derive(Clone, Copy, Debug, PartialEq, Eq, Structural)]
pub enum DataRate {
    DataRate8PerSec,
    DataRate16PerSec,
    DataRate32PerSec,
    DataRate64PerSec,
    DataRate128PerSec,
    DataRate250PerSec,
    DataRate475PerSec,
    DataRate860PerSec,
}

/// The three-bit data-rate field.
pub open spec fn spec_rate_bits(dr: DataRate) -> u16 {
    match dr {
        DataRate::DataRate8PerSec => 0,
        DataRate::DataRate16PerSec => 1,
        DataRate::DataRate32PerSec => 2,
        DataRate::DataRate64PerSec => 3,
        DataRate::DataRate128PerSec => 4,
        DataRate::DataRate250PerSec => 5,
        DataRate::DataRate475PerSec => 6,
        DataRate::DataRate860PerSec => 7,
    }
}

impl DataRate {
    /// The three-bit data-rate field.
    pub fn bits(self) -> (r: u16)
        ensures
            r == spec_rate_bits(self),
    {
        match self {
            DataRate::DataRate8PerSec => 0,
            DataRate::DataRate16PerSec => 1,
            DataRate::DataRate32PerSec => 2,
            DataRate::DataRate64PerSec => 3,
            DataRate::DataRate128PerSec => 4,
            DataRate::DataRate250PerSec => 5,
            DataRate::DataRate475PerSec => 6,
            DataRate::DataRate860PerSec => 7,
        }
    }
}

/// The full-scale input range, from about 6.144 V down to about 0.256 V.
#[derive(Clone, Copy, Debug, PartialEq, Eq, Structural)]
pub enum FullScaleRange {
    Fsr6p144,
    Fsr4p096,
    Fsr2p048,
    Fsr1p024,
    Fsr0p512,
    Fsr0p256,
}

/// The three-bit gain field of a range.
pub open spec fn spec_fsr_bits(fsr: FullScaleRange) -> u16 {
    match fsr {
        FullScaleRange::Fsr6p144 => 0,
        FullScaleRange::Fsr4p096 => 1,
        FullScaleRange::Fsr2p048 => 2,
        FullScaleRange::Fsr1p024 => 3,
        FullScaleRange::Fsr0p512 => 4,
        FullScaleRange::Fsr0p256 => 5,
    }
}

/// Picovolts per count of a range: the range voltage divided by 2^16, which
/// is exact in picovolts for all six ranges.
pub open spec fn spec_fsr_lsb_pv(fsr: FullScaleRange) -> int {
    match fsr {
        FullScaleRange::Fsr6p144 => 93_750_000,
        FullScaleRange::Fsr4p096 => 62_500_000,
        FullScaleRange::Fsr2p048 => 31_250_000,
        FullScaleRange::Fsr1p024 => 15_625_000,
        FullScaleRange::Fsr0p512 => 7_812_500,
        FullScaleRange::Fsr0p256 => 3_906_250,
    }
}

impl FullScaleRange {
    /// The three-bit gain field of this range.
    pub fn bits(self) -> (r: u16)
        ensures
            r == spec_fsr_bits(self),
    {
        match self {
            FullScaleRange::Fsr6p144 => 0,
            FullScaleRange::Fsr4p096 => 1,
            FullScaleRange::Fsr2p048 => 2,
            FullScaleRange::Fsr1p024 => 3,
            FullScaleRange::Fsr0p512 => 4,
            FullScaleRange::Fsr0p256 => 5,
        }
    }

    /// Picovolts per count of this range.
    pub fn lsb_pv(self) -> (r: i64)
        ensures
            r == spec_fsr_lsb_pv(self),
    {
        match self {
            FullScaleRange::Fsr6p144 => 93_750_000,
            FullScaleRange::Fsr4p096 => 62_500_000,
            FullScaleRange::Fsr2p048 => 31_250_000,
            FullScaleRange::Fsr1p024 => 15_625_000,
            FullScaleRange::Fsr0p512 => 7_812_500,
            FullScaleRange::Fsr0p256 => 3_906_250,
        }
    }
}

/// How many out-of-range conversions assert the comparator pin.
#[derive(Clone, Copy, Debug, PartialEq, Eq, Structural)]
pub enum CompQueueMode {
    CompQueueAfter1Conv,
    CompQueueAfter2Conv,
    CompQueueAfter4Conv,
    CompQueueNotActvd,
}

/// The two-bit comparator-queue field.
pub open spec fn spec_comp_bits(m: CompQueueMode) -> u16 {
    match m {
        CompQueueMode::CompQueueAfter1Conv => 0,
        CompQueueMode::CompQueueAfter2Conv => 1,
        CompQueueMode::CompQueueAfter4Conv => 2,
        CompQueueMode::CompQueueNotActvd => 3,
    }
}

impl CompQueueMode {
    /// The two-bit comparator-queue field.
    pub fn bits(self) -> (r: u16)
        ensures
            r == spec_comp_bits(self),
    {
        match self {
            CompQueueMode::CompQueueAfter1Conv => 0,
            CompQueueMode::CompQueueAfter2Conv => 1,
            CompQueueMode::CompQueueAfter4Conv => 2,
            CompQueueMode::CompQueueNotActvd => 3,
        }
    }
}

/// The acquisition parameters combined into one configuration word at
/// construction and on every trigger.
#[derive(Clone, Copy, Debug, PartialEq, Eq, Structural)]
pub struct ChannelConfig {
    /// The measured input.
    pub ch: Channel,
    /// Continuous or single-shot conversions.
    pub mode: ConvMode,
    /// Conversions per second.
    pub dr: DataRate,
    /// The full-scale input range.
    pub fsr: FullScaleRange,
    /// The comparator-queue setting.
    pub comp: CompQueueMode,
}

/// The 16-bit configuration word: trigger bit 15 set, multiplexer in bits
/// 14..12, gain in bits 11..9, mode in bit 8, data rate in bits 7..5, and
/// the comparator queue in bits 1..0.
pub open spec fn spec_config_word(cfg: ChannelConfig) -> u16 {
    (0x8000 + spec_channel_mux(cfg.ch) * 0x1000 + spec_fsr_bits(cfg.fsr) * 0x200 + spec_mode_bit(
        cfg.mode,
    ) * 0x100 + spec_rate_bits(cfg.dr) * 0x20 + spec_comp_bits(cfg.comp)) as u16
}

/// Composes the configuration word, trigger bit included.
pub fn config_word(cfg: &ChannelConfig) -> (r: u16)
    ensures
        r == spec_config_word(*cfg),
{
    0x8000 + cfg.ch.mux() * 0x1000 + cfg.fsr.bits() * 0x200 + cfg.mode.bit() * 0x100
        + cfg.dr.bits() * 0x20 + cfg.comp.bits()
}

/// The scaled voltage of a raw conversion code in picovolts: the code times
/// the range's volts-per-count, doubled on a relative channel.
pub open spec fn spec_scale_voltage(raw: int, fsr: FullScaleRange, ch: Channel) -> int {
    raw * spec_fsr_lsb_pv(fsr) * (if spec_channel_is_relative(ch) {
        2int
    } else {
        1int
    })
}

/// Scales a raw conversion code to picovolts for the given range and
/// channel mode.
pub fn scale_voltage(raw: i16, fsr: FullScaleRange, ch: Channel) -> (v: i64)
    ensures
        v == spec_scale_voltage(raw as int, fsr, ch),
        -0x8000 * 2 * 93_750_000 <= v <= 0x8000 * 2 * 93_750_000,
{
    proof {
        lemma_mul_bounds(raw as int, 0x8000, spec_fsr_lsb_pv(fsr), 93_750_000);
    }
    let scaled: i64 = (raw as i64) * fsr.lsb_pv();
    if ch.is_relative() {
        scaled * 2
    } else {
        scaled
    }
}

/// On the same raw code and range, a relative channel returns exactly twice
/// what a differential channel returns.
pub proof fn lemma_relative_doubles_differential(
    raw: int,
    fsr: FullScaleRange,
    rel: Channel,
    diff: Channel,
)
    requires
        spec_channel_is_relative(rel),
        !spec_channel_is_relative(diff),
    ensures
        spec_scale_voltage(raw, fsr, rel) == 2 * spec_scale_voltage(raw, fsr, diff),
{
    let s = raw * spec_fsr_lsb_pv(fsr);
    assert(s * 2 == 2 * (s * 1)) by (nonlinear_arith);
}

/// Generic access to one calibrated ADC channel, in picovolts: the
/// interface the derived ratio sensors are built on.
pub trait AdcCh: Sized {
    /// One voltage measurement in picovolts.
    fn get_voltage(&mut self) -> Result<i64, AdcErr>;

    /// The reference voltage of the measuring circuit, in picovolts.
    fn get_ref_voltage(&self) -> i64;
}

/// The ADC driver: owns its transport, its acquisition configuration, and
/// the circuit's reference voltage.
pub struct Ads1115<B: Bus> {
    /// The injected transport for this device's bus address.
    pub bus: B,
    /// The acquisition parameters composed into the configuration word.
    pub cfg: ChannelConfig,
    /// The measuring circuit's reference voltage in picovolts.
    pub vref_pv: i64,
    /// How many times the ready bit is polled before `PollTimeout`.
    pub max_polls: u32,
}

/// Polls the configuration register until its top bit reports an idle
/// converter, giving up after `max_polls` attempts.
fn wait_conversion_ready<B: Bus>(bus: &mut B, max_polls: u32) -> (r: Result<(), SensorError>)
    ensures
        r matches Err(e) ==> e == SensorError::BusIoError || e == SensorError::PollTimeout,
{
    let mut i: u32 = 0;
    while i < max_polls
        invariant
            i <= max_polls,
        decreases max_polls - i,
    {
        let d = match bus.read_block(REG_CONFIG, 2) {
            Ok(b) => b,
            Err(e) => {
                return Err(e);
            },
        };
        if d[0] & 0x80 != 0 {
            return Ok(());
        }
        i = i + 1;
    }
    Err(SensorError::PollTimeout)
}

impl<B: Bus> Ads1115<B> {
    /// Writes the composed configuration word once and stores the
    /// configuration for the per-read trigger.
    pub fn new(bus: B, cfg: ChannelConfig, vref_pv: i64, max_polls: u32) -> (r: Result<
        Ads1115<B>,
        SensorError,
    >)
        ensures
            r matches Ok(d) ==> d.cfg == cfg && d.vref_pv == vref_pv && d.max_polls == max_polls,
            r matches Err(e) ==> e == SensorError::BusIoError,
    {
        let mut bus = bus;
        match bus.write_word_be(REG_CONFIG, config_word(&cfg)) {
            Ok(()) => (),
            Err(e) => {
                return Err(e);
            },
        };
        Ok(Ads1115 { bus, cfg, vref_pv, max_polls })
    }

    /// One raw 16-bit conversion code: re-asserts the trigger bit whatever
    /// the configured mode, polls the ready bit, and reads the conversion
    /// register.
    pub fn read_raw(&mut self) -> (r: Result<i16, SensorError>)
        ensures
            r matches Err(e) ==> e == SensorError::BusIoError || e == SensorError::PollTimeout,
            final(self).cfg == old(self).cfg,
            final(self).vref_pv == old(self).vref_pv,
            final(self).max_polls == old(self).max_polls,
    {
        match self.bus.write_word_be(REG_CONFIG, config_word(&self.cfg)) {
            Ok(()) => (),
            Err(e) => {
                return Err(e);
            },
        };
        match wait_conversion_ready(&mut self.bus, self.max_polls) {
            Ok(()) => (),
            Err(e) => {
                return Err(e);
            },
        };
        let d = match self.bus.read_block(REG_CONVERSION, 2) {
            Ok(b) => b,
            Err(e) => {
                return Err(e);
            },
        };
        Ok(to_i16(d[0], d[1]))
    }

    /// One voltage measurement in picovolts: a raw code scaled by the
    /// configured range and channel mode.
    pub fn get_voltage_pv(&mut self) -> (r: Result<i64, SensorError>)
        ensures
            r matches Ok(v) ==> exists|raw: int|
                -0x8000 <= raw < 0x8000 && v == #[trigger] spec_scale_voltage(
                    raw,
                    old(self).cfg.fsr,
                    old(self).cfg.ch,
                ),
            r matches Err(e) ==> e == SensorError::BusIoError || e == SensorError::PollTimeout,
            final(self).cfg == old(self).cfg,
            final(self).vref_pv == old(self).vref_pv,
            final(self).max_polls == old(self).max_polls,
    {
        let raw = match self.read_raw() {
            Ok(v) => v,
            Err(e) => {
                return Err(e);
            },
        };
        let v = scale_voltage(raw, self.cfg.fsr, self.cfg.ch);
        proof {
            assert(v == spec_scale_voltage(raw as int, old(self).cfg.fsr, old(self).cfg.ch));
        }
        Ok(v)
    }
}

impl<B: Bus> AdcCh for Ads1115<B> {
    /// One voltage measurement in picovolts, with the transport failure
    /// kinds folded into the channel error's message.
    fn get_voltage(&mut self) -> (r: Result<i64, AdcErr>)
        ensures
            r matches Ok(v) ==> exists|raw: int|
                -0x8000 <= raw < 0x8000 && v == #[trigger] spec_scale_voltage(
                    raw,
                    old(self).cfg.fsr,
                    old(self).cfg.ch,
                ),
            final(self).cfg == old(self).cfg,
            final(self).vref_pv == old(self).vref_pv,
            final(self).max_polls == old(self).max_polls,
    {
        match self.get_voltage_pv() {
            Ok(v) => Ok(v),
            Err(SensorError::PollTimeout) => Err(AdcErr::new("conversion ready poll timed out")),
            Err(_) => Err(AdcErr::new("bus i/o error")),
        }
    }

    /// The configured reference voltage in picovolts.
    fn get_ref_voltage(&self) -> (r: i64)
        ensures
            r == self.vref_pv,
    {
        self.vref_pv
    }
}

} // verus!
