//! Bosch-class barometer driver: one-time calibration read, poll-driven raw
//! acquisition, and the manufacturer's fixed-point compensation formulas.
//!
//! The compensation pipeline is a golden algorithm: the spec functions below
//! restate it step for step over `int`, with every C-style shift written as a
//! floor division and every C-style signed division written as [`tdiv`]. The
//! executable functions are proved to return exactly those values on every
//! input on which the pipeline is defined, and a typed error on the rest.
//!
//! Temperature is reported in tenths of a degree Celsius, pressure in
//! pascals.

use crate::bus::Bus;
use crate::errors::{check_identity, SensorError};
use crate::numeric::{
    div_floor_i64, div_trunc_i64, lemma_div_range, lemma_mul_bounds, lemma_tdiv_range, tdiv,
    spec_i16_from_be, spec_u16_from_be, to_i16, to_u16,
};
use vstd::prelude::*;

verus! {

/// Register holding the first of the 22 calibration bytes.
pub const REG_FIRST_COEFF: u8 = 0xAA;

/// Register holding the most significant byte of a conversion result.
pub const REG_DATA_OUT_MSB: u8 = 0xF6;

/// Measurement control register: trigger commands and the ready bit.
pub const REG_CTRL_MEAS: u8 = 0xF4;

/// Identity register and the byte it must hold for this part.
pub const REG_ID: u8 = 0xD0;

/// The identity byte documented for this part.
pub const EXPECTED_ID: u8 = 0x55;

/// Bit of `REG_CTRL_MEAS` that is clear once a conversion has finished.
pub const MEAS_READY_MASK: u8 = 0x20;

/// The oversampling setting of a pressure conversion: how many internal
/// samples the chip averages (1, 2, 4 or 8).
#[derive(Clone, Copy, Debug, PartialEq, Eq, Structural)]
pub enum Oss {
    Oss1,
    Oss2,
    Oss4,
    Oss8,
}

/// The oversampling factor as a number: 1, 2, 4 or 8.
pub open spec fn spec_oss_mult(oss: Oss) -> int {
    match oss {
        Oss::Oss1 => 1,
        Oss::Oss2 => 2,
        Oss::Oss4 => 4,
        Oss::Oss8 => 8,
    }
}

/// The `REG_CTRL_MEAS` command byte that triggers one pressure conversion
/// at each oversampling setting.
pub open spec fn spec_pressure_command(oss: Oss) -> u8 {
    match oss {
        Oss::Oss1 => 0x34,
        Oss::Oss2 => 0x74,
        Oss::Oss4 => 0xB4,
        Oss::Oss8 => 0xF4,
    }
}

impl Oss {
    /// The oversampling factor as a number: 1, 2, 4 or 8.
    pub fn mult(self) -> (r: i64)
        ensures
            r == spec_oss_mult(self),
    {
        match self {
            Oss::Oss1 => 1,
            Oss::Oss2 => 2,
            Oss::Oss4 => 4,
            Oss::Oss8 => 8,
        }
    }

    /// The `REG_CTRL_MEAS` command that triggers one pressure conversion at
    /// this oversampling setting.
    pub fn pressure_command(self) -> (r: u8)
        ensures
            r == spec_pressure_command(self),
    {
        match self {
            Oss::Oss1 => 0x34,
            Oss::Oss2 => 0x74,
            Oss::Oss4 => 0xB4,
            Oss::Oss8 => 0xF4,
        }
    }
}

/// The eleven factory-programmed compensation constants, decoded once at
/// construction and immutable afterwards.
#[derive(Clone, Copy, Debug, PartialEq, Eq, Structural)]
pub struct CalibrationCoefficients {
    pub ac1: i16,
    pub ac2: i16,
    pub ac3: i16,
    pub ac4: u16,
    pub ac5: u16,
    pub ac6: u16,
    pub b1: i16,
    pub b2: i16,
    pub mb: i16,
    pub mc: i16,
    pub md: i16,
}

/// The coefficients held big-endian in a 22-byte calibration block, in the
/// documented order and signedness.
pub open spec fn spec_decode_coefficients(b: Seq<u8>) -> CalibrationCoefficients {
    CalibrationCoefficients {
        ac1: spec_i16_from_be(b[0], b[1]),
        ac2: spec_i16_from_be(b[2], b[3]),
        ac3: spec_i16_from_be(b[4], b[5]),
        ac4: spec_u16_from_be(b[6], b[7]),
        ac5: spec_u16_from_be(b[8], b[9]),
        ac6: spec_u16_from_be(b[10], b[11]),
        b1: spec_i16_from_be(b[12], b[13]),
        b2: spec_i16_from_be(b[14], b[15]),
        mb: spec_i16_from_be(b[16], b[17]),
        mc: spec_i16_from_be(b[18], b[19]),
        md: spec_i16_from_be(b[20], b[21]),
    }
}

/// Decodes the 22-byte calibration block into the eleven coefficients.
pub fn decode_coefficients(block: &Vec<u8>) -> (c: CalibrationCoefficients)
    requires
        block@.len() == 22,
    ensures
        c == spec_decode_coefficients(block@),
{
    CalibrationCoefficients {
        ac1: to_i16(block[0], block[1]),
        ac2: to_i16(block[2], block[3]),
        ac3: to_i16(block[4], block[5]),
        ac4: to_u16(block[6], block[7]),
        ac5: to_u16(block[8], block[9]),
        ac6: to_u16(block[10], block[11]),
        b1: to_i16(block[12], block[13]),
        b2: to_i16(block[14], block[15]),
        mb: to_i16(block[16], block[17]),
        mc: to_i16(block[18], block[19]),
        md: to_i16(block[20], block[21]),
    }
}

/// The raw temperature code held by a three-byte data read: the top
/// sixteen bits, most significant byte first; the third byte is discarded.
pub open spec fn spec_raw_temperature_code(d: Seq<u8>) -> int {
    d[0] * 256 + d[1]
}

/// Assembles the raw temperature code from the three data bytes.
pub fn raw_temperature_code(d: &Vec<u8>) -> (r: i32)
    requires
        d@.len() == 3,
    ensures
        r == spec_raw_temperature_code(d@),
        0 <= r < 0x1_0000,
{
    (d[0] as i32) * 256 + (d[1] as i32)
}

/// The raw pressure code held by a three-byte data read: the 24-bit
/// big-endian value shifted right by `8 - oversampling exponent`, i.e.
/// divided by `256 / oversampling factor`.
pub open spec fn spec_raw_pressure_code(d: Seq<u8>, oss: Oss) -> int {
    (d[0] * 0x1_0000 + d[1] * 0x100 + d[2]) / (256int / spec_oss_mult(oss))
}

/// Assembles the raw pressure code from the three data bytes at the given
/// oversampling setting.
pub fn raw_pressure_code(d: &Vec<u8>, oss: Oss) -> (r: i32)
    requires
        d@.len() == 3,
    ensures
        r == spec_raw_pressure_code(d@, oss),
        0 <= r < 0x100_0000,
{
    let raw24: i64 = (d[0] as i64) * 0x1_0000 + (d[1] as i64) * 0x100 + (d[2] as i64);
    let divisor: i64 = match oss {
        Oss::Oss1 => 256,
        Oss::Oss2 => 128,
        Oss::Oss4 => 64,
        Oss::Oss8 => 32,
    };
    let up = div_floor_i64(raw24, divisor);
    proof {
        assert(divisor == 256int / spec_oss_mult(oss));
        crate::numeric::lemma_div_floor_bounds(raw24 as int, divisor as int);
    }
    up as i32
}

/// First temperature intermediate: `(ut - ac6) * ac5 >> 15`.
pub open spec fn temp_x1(c: CalibrationCoefficients, ut: int) -> int {
    ((ut - c.ac6) * c.ac5) / 0x8000
}

/// The temperature formula divides by `temp_x1 + md`; it is defined exactly
/// when that denominator is not zero.
pub open spec fn temp_defined(c: CalibrationCoefficients, ut: int) -> bool {
    temp_x1(c, ut) + c.md != 0
}

/// The `b5` temperature intermediate, shared with pressure compensation.
pub open spec fn temp_b5(c: CalibrationCoefficients, ut: int) -> int {
    temp_x1(c, ut) + tdiv(c.mc * 0x800, temp_x1(c, ut) + c.md)
}

/// Compensated temperature in tenths of a degree Celsius:
/// `(b5 + 8) >> 4`.
pub open spec fn spec_temperature_dc(c: CalibrationCoefficients, ut: int) -> int {
    (temp_b5(c, ut) + 8) / 16
}

/// Computes `b5` for a raw temperature code, or reports the singular
/// denominator. Bounds: `|x1| <= 0x20000` and `|b5| <= 0x8000000`.
fn compute_b5(c: &CalibrationCoefficients, ut: i32) -> (r: Result<i64, SensorError>)
    requires
        0 <= ut < 0x10000,
    ensures
        temp_defined(*c, ut as int) ==> r == Ok::<i64, SensorError>(
            temp_b5(*c, ut as int) as i64,
        ) && -0x800_0000 <= temp_b5(*c, ut as int) <= 0x800_0000,
        !temp_defined(*c, ut as int) ==> r == Err::<i64, SensorError>(
            SensorError::SingularCalibration,
        ),
{
    let diff: i64 = (ut as i64) - (c.ac6 as i64);
    proof {
        lemma_mul_bounds(diff as int, 0x10000, c.ac5 as int, 0x10000);
    }
    let prod: i64 = diff * (c.ac5 as i64);
    let x1: i64 = div_floor_i64(prod, 0x8000);
    proof {
        lemma_div_range(prod as int, 0x1_0000_0000, 0x8000);
        assert(x1 == temp_x1(*c, ut as int));
        assert(-0x20001 <= x1 <= 0x20000);
    }
    let den: i64 = x1 + (c.md as i64);
    if den == 0 {
        return Err(SensorError::SingularCalibration);
    }
    let num: i64 = (c.mc as i64) * 0x800;
    let x2: i64 = div_trunc_i64(num, den);
    proof {
        lemma_tdiv_range(num as int, 0x400_0000, den as int, 1);
        vstd::arithmetic::div_mod::lemma_div_basics_1(0x400_0000);
        assert(-0x400_0000 <= x2 <= 0x400_0000);
    }
    Ok(x1 + x2)
}

/// Compensated temperature in tenths of a degree Celsius for a 16-bit raw
/// temperature code, following the documented fixed-point formula exactly.
///
/// Returns `SingularCalibration` exactly when the formula's denominator
/// `x1 + md` is zero for these coefficients and this code.
pub fn compensate_temperature(c: &CalibrationCoefficients, ut: i32) -> (r: Result<
    i64,
    SensorError,
>)
    requires
        0 <= ut < 0x10000,
    ensures
        temp_defined(*c, ut as int) ==> r == Ok::<i64, SensorError>(
            spec_temperature_dc(*c, ut as int) as i64,
        ) && -0x80_0000 <= spec_temperature_dc(*c, ut as int) <= 0x80_0000,
        !temp_defined(*c, ut as int) ==> r == Err::<i64, SensorError>(
            SensorError::SingularCalibration,
        ),
{
    let b5: i64 = match compute_b5(c, ut) {
        Ok(v) => v,
        Err(e) => {
            return Err(e);
        },
    };
    let t: i64 = div_floor_i64(b5 + 8, 16);
    Ok(t)
}

/// The `b6` pressure intermediate: `b5 - 4000`.
pub open spec fn press_b6(c: CalibrationCoefficients, ut: int) -> int {
    temp_b5(c, ut) - 4000
}

/// The shared intermediate `b6 * b6 >> 12`.
pub open spec fn press_t1(c: CalibrationCoefficients, ut: int) -> int {
    (press_b6(c, ut) * press_b6(c, ut)) / 0x1000
}

/// The `x3` pressure intermediate: `(b2 * t1 >> 11) + (ac2 * b6 >> 11)`.
pub open spec fn press_x3(c: CalibrationCoefficients, ut: int) -> int {
    (c.b2 * press_t1(c, ut)) / 0x800 + (c.ac2 * press_b6(c, ut)) / 0x800
}

/// The `b3` intermediate: `(((ac1 * 4 + x3) << oss) + 2) / 4`.
pub open spec fn press_b3(c: CalibrationCoefficients, ut: int, oss: Oss) -> int {
    tdiv((c.ac1 * 4 + press_x3(c, ut)) * spec_oss_mult(oss) + 2, 4)
}

/// The second `x3` intermediate:
/// `((ac3 * b6 >> 13) + (b1 * t1 >> 16) + 2) >> 2`.
pub open spec fn press_x3q(c: CalibrationCoefficients, ut: int) -> int {
    ((c.ac3 * press_b6(c, ut)) / 0x2000 + (c.b1 * press_t1(c, ut)) / 0x10000 + 2) / 4
}

/// The `b4` divisor: `ac4 * (x3 + 32768) >> 15`.
pub open spec fn press_b4(c: CalibrationCoefficients, ut: int) -> int {
    (c.ac4 * (press_x3q(c, ut) + 0x8000)) / 0x8000
}

/// The `b7` intermediate: `(up - b3) * (50000 >> oss)`.
pub open spec fn press_b7(c: CalibrationCoefficients, ut: int, up: int, oss: Oss) -> int {
    (up - press_b3(c, ut, oss)) * (50000int / spec_oss_mult(oss))
}

/// The uncorrected pressure, using the branch documented to avoid unsigned
/// overflow: multiply before dividing only while `b7` is below `2^31`.
pub open spec fn press_p0(c: CalibrationCoefficients, ut: int, up: int, oss: Oss) -> int {
    if press_b7(c, ut, up, oss) < 0x8000_0000 {
        tdiv(press_b7(c, ut, up, oss) * 2, press_b4(c, ut))
    } else {
        tdiv(press_b7(c, ut, up, oss), press_b4(c, ut)) * 2
    }
}

/// Compensated pressure in pascals: the uncorrected pressure plus the final
/// correction terms `x1` and `x2`.
pub open spec fn spec_pressure_pa(c: CalibrationCoefficients, ut: int, up: int, oss: Oss) -> int {
    let p = press_p0(c, ut, up, oss);
    let q = p / 0x100;
    let xa = (q * q * 3038) / 0x10000;
    let xb = (-7357 * p) / 0x10000;
    p + ((xa + xb + 3791) / 16)
}

/// Where the pressure pipeline is defined: the temperature denominator is
/// nonzero, the divisor `b4` is positive, the raw code is not below `b3`,
/// and the uncorrected pressure stays within the 24 bits on which the final
/// correction terms are meaningful.
pub open spec fn press_defined(c: CalibrationCoefficients, ut: int, up: int, oss: Oss) -> bool {
    &&& temp_defined(c, ut)
    &&& press_b4(c, ut) > 0
    &&& up - press_b3(c, ut, oss) >= 0
    &&& press_p0(c, ut, up, oss) < 0x100_0000
}

/// Compensated pressure in pascals for one raw temperature code and one raw
/// pressure code, following the documented fixed-point pipeline exactly.
///
/// The result is `Ok` exactly when the pipeline is defined
/// ([`press_defined`]): `SingularCalibration` reports a zero temperature
/// denominator or a nonpositive `b4` divisor, `ConfigurationInvalid` a raw
/// pressure code below `b3` or an uncorrected pressure beyond 24 bits.
pub fn compensate_pressure(c: &CalibrationCoefficients, ut: i32, up: i32, oss: Oss) -> (r: Result<
    i32,
    SensorError,
>)
    requires
        0 <= ut < 0x10000,
        0 <= up < 0x100_0000,
    ensures
        press_defined(*c, ut as int, up as int, oss) ==> r == Ok::<i32, SensorError>(
            spec_pressure_pa(*c, ut as int, up as int, oss) as i32,
        ) && -0x8000_0000 <= spec_pressure_pa(*c, ut as int, up as int, oss) < 0x8000_0000,
        !temp_defined(*c, ut as int) ==> r == Err::<i32, SensorError>(
            SensorError::SingularCalibration,
        ),
        temp_defined(*c, ut as int) && press_b4(*c, ut as int) <= 0 ==> r == Err::<
            i32,
            SensorError,
        >(SensorError::SingularCalibration),
        temp_defined(*c, ut as int) && press_b4(*c, ut as int) > 0 && up - press_b3(
            *c,
            ut as int,
            oss,
        ) < 0 ==> r == Err::<i32, SensorError>(SensorError::ConfigurationInvalid),
        temp_defined(*c, ut as int) && press_b4(*c, ut as int) > 0 && up - press_b3(
            *c,
            ut as int,
            oss,
        ) >= 0 && press_p0(*c, ut as int, up as int, oss) >= 0x100_0000 ==> r == Err::<
            i32,
            SensorError,
        >(SensorError::ConfigurationInvalid),
{
    let ghost gut = ut as int;
    let b5: i64 = match compute_b5(c, ut) {
        Ok(v) => v,
        Err(e) => {
            return Err(e);
        },
    };
    let b6: i64 = b5 - 4000;
    proof {
        assert(b6 == press_b6(*c, gut));
        assert(-134221728 <= b6 <= 134221728);
        lemma_mul_bounds(b6 as int, 134230000, b6 as int, 134230000);
        assert(b6 * b6 >= 0) by (nonlinear_arith);
    }
    let sq: i64 = b6 * b6;
    let t1: i64 = div_floor_i64(sq, 0x1000);
    proof {
        lemma_div_range(sq as int, 18100000000000000, 0x1000);
        assert(t1 == press_t1(*c, gut));
        assert(0 <= t1 <= 4420000000000);
    }
    proof {
        lemma_mul_bounds(c.b2 as int, 0x8000, t1 as int, 4420000000000);
    }
    let x1p_prod: i64 = (c.b2 as i64) * t1;
    let x1p: i64 = div_floor_i64(x1p_prod, 0x800);
    proof {
        lemma_div_range(x1p_prod as int, 145000000000000000, 0x800);
        assert(-70800000000001 <= x1p <= 70800000000000);
    }
    proof {
        lemma_mul_bounds(c.ac2 as int, 0x8000, b6 as int, 134230000);
    }
    let x2p_prod: i64 = (c.ac2 as i64) * b6;
    let x2p: i64 = div_floor_i64(x2p_prod, 0x800);
    proof {
        lemma_div_range(x2p_prod as int, 4400000000000, 0x800);
        assert(-2150000001 <= x2p <= 2150000000);
    }
    let x3: i64 = x1p + x2p;
    proof {
        assert(x3 == press_x3(*c, gut));
    }
    let base: i64 = (c.ac1 as i64) * 4 + x3;
    let mult: i64 = oss.mult();
    proof {
        lemma_mul_bounds(base as int, 70820000000000, mult as int, 8);
    }
    let sh: i64 = base * mult + 2;
    let b3: i64 = div_trunc_i64(sh, 4);
    proof {
        lemma_tdiv_range(sh as int, 566600000000010, 4, 4);
        assert(b3 == press_b3(*c, gut, oss));
        assert(-141650000000003 <= b3 <= 141650000000002);
    }
    proof {
        lemma_mul_bounds(c.ac3 as int, 0x8000, b6 as int, 134230000);
    }
    let x1q_prod: i64 = (c.ac3 as i64) * b6;
    let x1q: i64 = div_floor_i64(x1q_prod, 0x2000);
    proof {
        lemma_div_range(x1q_prod as int, 4400000000000, 0x2000);
        assert(-537200001 <= x1q <= 537200000);
    }
    proof {
        lemma_mul_bounds(c.b1 as int, 0x8000, t1 as int, 4420000000000);
    }
    let x2q_prod: i64 = (c.b1 as i64) * t1;
    let x2q: i64 = div_floor_i64(x2q_prod, 0x10000);
    proof {
        lemma_div_range(x2q_prod as int, 145000000000000000, 0x10000);
        assert(-2213000000001 <= x2q <= 2213000000000);
    }
    let x3q: i64 = div_floor_i64(x1q + x2q + 2, 4);
    proof {
        lemma_div_range((x1q + x2q + 2) as int, 2214000000000, 4);
        assert(x3q == press_x3q(*c, gut));
    }
    let s: i64 = x3q + 0x8000;
    proof {
        lemma_mul_bounds(c.ac4 as int, 0x10000, s as int, 553600000000);
    }
    let b4_prod: i64 = (c.ac4 as i64) * s;
    let b4: i64 = div_floor_i64(b4_prod, 0x8000);
    proof {
        lemma_div_range(b4_prod as int, 36290000000000000, 0x8000);
        assert(b4 == press_b4(*c, gut));
        assert(-1107300000001 <= b4 <= 1107300000000);
    }
    if b4 <= 0 {
        return Err(SensorError::SingularCalibration);
    }
    let updiff: i64 = (up as i64) - b3;
    if updiff < 0 {
        return Err(SensorError::ConfigurationInvalid);
    }
    let rate: i64 = div_floor_i64(50000, mult);
    proof {
        assert(6250 <= rate <= 50000);
        lemma_mul_bounds(updiff as int, 141670000000000, rate as int, 50000);
        assert(updiff * rate >= 0) by (nonlinear_arith)
            requires
                updiff >= 0,
                rate >= 0,
        {}
    }
    let b7: i64 = updiff * rate;
    proof {
        assert(b7 == press_b7(*c, gut, up as int, oss));
    }
    let ghost gp0 = press_p0(*c, gut, up as int, oss);
    let p0: i64;
    if b7 < 0x8000_0000 {
        let num: i64 = b7 * 2;
        p0 = div_trunc_i64(num, b4);
        proof {
            lemma_tdiv_range(num as int, 0x1_0000_0000, b4 as int, 1);
            vstd::arithmetic::div_mod::lemma_div_basics_1(0x1_0000_0000);
            assert(p0 == gp0);
            assert(p0 >= 0) by {
                vstd::arithmetic::div_mod::lemma_div_pos_is_pos(num as int, b4 as int);
            }
        }
        if p0 >= 0x100_0000 {
            return Err(SensorError::ConfigurationInvalid);
        }
    } else {
        let q1: i64 = div_trunc_i64(b7, b4);
        proof {
            lemma_tdiv_range(b7 as int, 7083500000000000000, b4 as int, 1);
            vstd::arithmetic::div_mod::lemma_div_basics_1(7083500000000000000);
            assert(q1 >= 0) by {
                vstd::arithmetic::div_mod::lemma_div_pos_is_pos(b7 as int, b4 as int);
            }
        }
        if q1 >= 0x80_0000 {
            proof {
                assert(gp0 == q1 * 2);
            }
            return Err(SensorError::ConfigurationInvalid);
        }
        p0 = q1 * 2;
        proof {
            assert(p0 == gp0);
        }
    }
    let q: i64 = div_floor_i64(p0, 0x100);
    proof {
        lemma_div_range(p0 as int, 0xFF_FFFF, 0x100);
        assert(0 <= q <= 0xFFFF) by {
            vstd::arithmetic::div_mod::lemma_div_pos_is_pos(p0 as int, 0x100);
        }
        lemma_mul_bounds(q as int, 0x10000, q as int, 0x10000);
        assert(q * q >= 0) by (nonlinear_arith);
        lemma_mul_bounds((q * q) as int, 0x1_0000_0000, 3038, 3038);
    }
    let xa_prod: i64 = q * q * 3038;
    let xa: i64 = div_floor_i64(xa_prod, 0x10000);
    proof {
        lemma_div_range(xa_prod as int, 0x1_0000_0000int * 3038, 0x10000);
        assert(-199100000 <= xa <= 199100000);
    }
    proof {
        lemma_mul_bounds(-7357, 7357, p0 as int, 0xFF_FFFF);
    }
    let xb_prod: i64 = -7357 * p0;
    let xb: i64 = div_floor_i64(xb_prod, 0x10000);
    proof {
        lemma_div_range(xb_prod as int, 7357int * 0xFF_FFFF, 0x10000);
        assert(-1883394 <= xb <= 1883394);
    }
    let corr: i64 = div_floor_i64(xa + xb + 3791, 16);
    let pf: i64 = p0 + corr;
    proof {
        lemma_div_range((xa + xb + 3791) as int, 201000000, 16);
        assert(pf == spec_pressure_pa(*c, gut, up as int, oss));
        assert(-0x8000_0000 <= pf < 0x8000_0000);
    }
    Ok(pf as i32)
}

/// Polls `REG_CTRL_MEAS` until its ready bit reports a finished conversion,
/// giving up after `max_polls` attempts.
fn wait_ready<B: Bus>(bus: &mut B, max_polls: u32) -> (r: Result<(), SensorError>)
    ensures
        r matches Err(e) ==> e == SensorError::BusIoError || e == SensorError::PollTimeout,
{
    let mut i: u32 = 0;
    while i < max_polls
        invariant
            i <= max_polls,
        decreases max_polls - i,
    {
        let status = match bus.read_byte(REG_CTRL_MEAS) {
            Ok(b) => b,
            Err(e) => {
                return Err(e);
            },
        };
        if status & MEAS_READY_MASK == 0 {
            return Ok(());
        }
        i = i + 1;
    }
    Err(SensorError::PollTimeout)
}

/// The barometer driver: owns its transport and the calibration constants
/// read once at construction.
pub struct BMP180<B: Bus> {
    /// The injected transport for this device's bus address.
    pub bus: B,
    /// The factory calibration, decoded at construction, never re-read.
    pub coeffs: CalibrationCoefficients,
    /// How many times a ready bit is polled before `PollTimeout`.
    pub max_polls: u32,
}

impl<B: Bus> BMP180<B> {
    /// Reads the 22-byte calibration block and decodes the eleven
    /// compensation constants; fails with `BusIoError` if the block cannot
    /// be read.
    pub fn new(bus: B, max_polls: u32) -> (r: Result<BMP180<B>, SensorError>)
        ensures
            r matches Ok(d) ==> d.max_polls == max_polls,
            r matches Err(e) ==> e == SensorError::BusIoError,
    {
        let mut bus = bus;
        let block = match bus.read_block(REG_FIRST_COEFF, 22) {
            Ok(b) => b,
            Err(e) => {
                return Err(e);
            },
        };
        let coeffs = decode_coefficients(&block);
        Ok(BMP180 { bus, coeffs, max_polls })
    }

    /// Reads the identity register and checks it against the documented
    /// byte; the caller decides whether a mismatch is fatal.
    pub fn self_test(&mut self) -> (r: Result<(), SensorError>)
        ensures
            r matches Err(e) ==> e == SensorError::BusIoError
                || e == SensorError::DeviceIdentityMismatch,
            final(self).coeffs == old(self).coeffs,
            final(self).max_polls == old(self).max_polls,
    {
        let id = match self.bus.read_byte(REG_ID) {
            Ok(b) => b,
            Err(e) => {
                return Err(e);
            },
        };
        check_identity(id, EXPECTED_ID)
    }

    /// Waits for the ready bit, then reads three data bytes and keeps the
    /// top sixteen as the raw temperature code.
    fn read_raw_temperature(&mut self) -> (r: Result<i32, SensorError>)
        ensures
            r matches Ok(ut) ==> 0 <= ut < 0x10000 && exists|d: Seq<u8>|
                d.len() == 3 && ut == #[trigger] spec_raw_temperature_code(d),
            r matches Err(e) ==> e == SensorError::BusIoError || e == SensorError::PollTimeout,
            final(self).coeffs == old(self).coeffs,
            final(self).max_polls == old(self).max_polls,
    {
        match wait_ready(&mut self.bus, self.max_polls) {
            Ok(()) => (),
            Err(e) => {
                return Err(e);
            },
        };
        let d = match self.bus.read_block(REG_DATA_OUT_MSB, 3) {
            Ok(b) => b,
            Err(e) => {
                return Err(e);
            },
        };
        let ut = raw_temperature_code(&d);
        proof {
            assert(ut == spec_raw_temperature_code(d@));
        }
        Ok(ut)
    }

    /// Triggers one pressure conversion at the requested oversampling
    /// setting, waits for the ready bit, reads three data bytes, and shifts
    /// the 24-bit code right by `8 - oversampling exponent`.
    fn read_raw_pressure(&mut self, oss: Oss) -> (r: Result<i32, SensorError>)
        ensures
            r matches Ok(up) ==> 0 <= up < 0x100_0000 && exists|d: Seq<u8>|
                d.len() == 3 && up == #[trigger] spec_raw_pressure_code(d, oss),
            r matches Err(e) ==> e == SensorError::BusIoError || e == SensorError::PollTimeout,
            final(self).coeffs == old(self).coeffs,
            final(self).max_polls == old(self).max_polls,
    {
        match self.bus.write_byte(REG_CTRL_MEAS, oss.pressure_command()) {
            Ok(()) => (),
            Err(e) => {
                return Err(e);
            },
        };
        match wait_ready(&mut self.bus, self.max_polls) {
            Ok(()) => (),
            Err(e) => {
                return Err(e);
            },
        };
        let d = match self.bus.read_block(REG_DATA_OUT_MSB, 3) {
            Ok(b) => b,
            Err(e) => {
                return Err(e);
            },
        };
        let up = raw_pressure_code(&d, oss);
        proof {
            assert(up == spec_raw_pressure_code(d@, oss));
        }
        Ok(up)
    }

    /// One temperature measurement in tenths of a degree Celsius: raw
    /// acquisition followed by the exact compensation formula.
    pub fn read_temperature(&mut self) -> (r: Result<i64, SensorError>)
        ensures
            r matches Ok(t) ==> exists|ut: int|
                0 <= ut < 0x10000 && #[trigger] temp_defined(old(self).coeffs, ut) && t
                    == spec_temperature_dc(old(self).coeffs, ut),
            r matches Err(e) ==> e == SensorError::BusIoError || e == SensorError::PollTimeout
                || e == SensorError::SingularCalibration,
            final(self).coeffs == old(self).coeffs,
            final(self).max_polls == old(self).max_polls,
    {
        let ut = match self.read_raw_temperature() {
            Ok(v) => v,
            Err(e) => {
                return Err(e);
            },
        };
        let t = match compensate_temperature(&self.coeffs, ut) {
            Ok(v) => v,
            Err(e) => {
                return Err(e);
            },
        };
        proof {
            assert(temp_defined(self.coeffs, ut as int));
        }
        Ok(t)
    }

    /// One pressure measurement in pascals: a raw temperature and a raw
    /// pressure acquisition followed by the exact compensation pipeline.
    pub fn read_pressure(&mut self, oss: Oss) -> (r: Result<i32, SensorError>)
        ensures
            r matches Ok(p) ==> exists|ut: int, up: int|
                0 <= ut < 0x10000 && 0 <= up < 0x100_0000 && #[trigger] press_defined(
                    old(self).coeffs,
                    ut,
                    up,
                    oss,
                ) && p == spec_pressure_pa(old(self).coeffs, ut, up, oss),
            r matches Err(e) ==> e == SensorError::BusIoError || e == SensorError::PollTimeout
                || e == SensorError::SingularCalibration || e == SensorError::ConfigurationInvalid,
            final(self).coeffs == old(self).coeffs,
            final(self).max_polls == old(self).max_polls,
    {
        let ut = match self.read_raw_temperature() {
            Ok(v) => v,
            Err(e) => {
                return Err(e);
            },
        };
        let up = match self.read_raw_pressure(oss) {
            Ok(v) => v,
            Err(e) => {
                return Err(e);
            },
        };
        let p = match compensate_pressure(&self.coeffs, ut, up, oss) {
            Ok(v) => v,
            Err(e) => {
                return Err(e);
            },
        };
        proof {
            assert(press_defined(self.coeffs, ut as int, up as int, oss));
        }
        Ok(p)
    }

    /// The calibration constants this driver was constructed with.
    pub fn comp_coeffs(&self) -> (r: &CalibrationCoefficients)
        ensures
            r == self.coeffs,
    {
        &self.coeffs
    }
}

} // verus!
