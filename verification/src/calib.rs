//! Two-point calibration curves: the linear raw-code to physical-value
//! mapping used by the humidity driver, with an exact integer contract.
//!
//! A curve holds two reference points `(x0, y0)` and `(x1, y1)`: raw codes
//! on the x axis and physical values, in milli-units, on the y axis. The
//! interpolated value at a raw code is the floor of the exact rational
//! interpolation; [`spec_interp_sum`] states it for the mean `sum / n` of
//! `n` raw codes without rounding the mean first.

use crate::errors::SensorError;
use crate::numeric::{div_floor_i64, lemma_div_range, lemma_mul_bounds};
use vstd::arithmetic::div_mod::lemma_div_is_ordered;
use vstd::prelude::*;

verus! {

/// A linear mapping from raw codes to physical values in milli-units,
/// defined by two reference points with distinct raw codes.
#[derive(Clone, Copy, Debug, PartialEq, Eq, Structural)]
pub struct TwoPointCurve {
    /// Raw code of the first reference point.
    pub x0: i32,
    /// Value at `x0`, in milli-units.
    pub y0: i64,
    /// Raw code of the second reference point.
    pub x1: i32,
    /// Value at `x1`, in milli-units.
    pub y1: i64,
}

impl TwoPointCurve {
    /// A curve is well formed when its two raw codes differ (otherwise the
    /// interpolation denominator is zero) and its coordinates are within
    /// the ranges a 16-bit register pair can produce.
    pub open spec fn wf(self) -> bool {
        &&& self.x0 != self.x1
        &&& -0x1_0000 <= self.x0 <= 0x1_0000
        &&& -0x1_0000 <= self.x1 <= 0x1_0000
        &&& -0x4_0000 <= self.y0 <= 0x4_0000
        &&& -0x4_0000 <= self.y1 <= 0x4_0000
    }

    /// Builds a curve from two reference points, rejecting a singular one.
    ///
    /// Returns `SingularCalibration` exactly when the raw codes coincide.
    pub fn new(x0: i32, y0: i64, x1: i32, y1: i64) -> (r: Result<TwoPointCurve, SensorError>)
        requires
            -0x1_0000 <= x0 <= 0x1_0000,
            -0x1_0000 <= x1 <= 0x1_0000,
            -0x4_0000 <= y0 <= 0x4_0000,
            -0x4_0000 <= y1 <= 0x4_0000,
        ensures
            x0 != x1 ==> (r matches Ok(c) && c == (TwoPointCurve { x0, y0, x1, y1 }) && c.wf()),
            x0 == x1 ==> r == Err::<TwoPointCurve, SensorError>(SensorError::SingularCalibration),
    {
        if x0 == x1 {
            Err(SensorError::SingularCalibration)
        } else {
            Ok(TwoPointCurve { x0, y0, x1, y1 })
        }
    }
}

/// Floor of the exact rational interpolation of the curve at the mean
/// `sum / n` of `n` raw codes: both branches are the same rational value,
/// written with a positive denominator so that `/` is a floor.
pub open spec fn spec_interp_sum(c: TwoPointCurve, sum: int, n: int) -> int {
    if c.x1 > c.x0 {
        (c.y0 * (c.x1 * n - sum) + c.y1 * (sum - c.x0 * n)) / ((c.x1 - c.x0) * n)
    } else {
        (c.y1 * (c.x0 * n - sum) + c.y0 * (sum - c.x1 * n)) / ((c.x0 - c.x1) * n)
    }
}

/// Floor of the exact rational interpolation of the curve at one raw code.
pub open spec fn spec_interp(c: TwoPointCurve, x: int) -> int {
    spec_interp_sum(c, x, 1)
}

/// Interpolates the curve at the mean of `n` raw codes whose sum is `sum`,
/// in milli-units, without rounding the mean first.
pub fn interpolate_sum(c: &TwoPointCurve, sum: i64, n: i64) -> (r: i64)
    requires
        c.wf(),
        1 <= n <= 0x1_0000,
        -0x1_0000 * n <= sum <= 0x1_0000 * n,
    ensures
        r == spec_interp_sum(*c, sum as int, n as int),
{
    let (ylo, xlo, yhi, xhi): (i64, i64, i64, i64) = if c.x1 > c.x0 {
        (c.y0, c.x0 as i64, c.y1, c.x1 as i64)
    } else {
        (c.y1, c.x1 as i64, c.y0, c.x0 as i64)
    };
    proof {
        lemma_mul_bounds(xhi as int, 0x1_0000, n as int, 0x1_0000);
        lemma_mul_bounds(xlo as int, 0x1_0000, n as int, 0x1_0000);
    }
    let thi: i64 = xhi * n - sum;
    let tlo: i64 = sum - xlo * n;
    proof {
        lemma_mul_bounds(ylo as int, 0x4_0000, thi as int, 0x2_0000_0000);
        lemma_mul_bounds(yhi as int, 0x4_0000, tlo as int, 0x2_0000_0000);
        lemma_mul_bounds((xhi - xlo) as int, 0x2_0000, n as int, 0x1_0000);
        assert((xhi - xlo) * n >= n) by (nonlinear_arith)
            requires
                xhi - xlo >= 1,
                n >= 1,
        {}
    }
    let num: i64 = ylo * thi + yhi * tlo;
    let den: i64 = (xhi - xlo) * n;
    div_floor_i64(num, den)
}

/// Interpolates the curve at one raw code, in milli-units.
pub fn interpolate(c: &TwoPointCurve, x: i64) -> (r: i64)
    requires
        c.wf(),
        -0x1_0000 <= x <= 0x1_0000,
    ensures
        r == spec_interp(*c, x as int),
{
    interpolate_sum(c, x, 1)
}

/// Two-point interpolation is monotonic: on a curve whose second reference
/// point has the larger raw code and a value at least as large, a larger
/// raw code never interpolates to a smaller value.
pub proof fn lemma_interp_monotonic(c: TwoPointCurve, xa: int, xb: int)
    requires
        c.x1 > c.x0,
        c.y1 >= c.y0,
        xa <= xb,
    ensures
        spec_interp(c, xa) <= spec_interp(c, xb),
{
    let d = (c.x1 - c.x0) * 1int;
    let na = c.y0 * (c.x1 * 1 - xa) + c.y1 * (xa - c.x0 * 1);
    let nb = c.y0 * (c.x1 * 1 - xb) + c.y1 * (xb - c.x0 * 1);
    assert(na <= nb && d >= 1) by (nonlinear_arith)
        requires
            c.x1 > c.x0,
            c.y1 >= c.y0,
            xa <= xb,
            d == (c.x1 - c.x0) * 1int,
            na == c.y0 * (c.x1 * 1int - xa) + c.y1 * (xa - c.x0 * 1int),
            nb == c.y0 * (c.x1 * 1int - xb) + c.y1 * (xb - c.x0 * 1int),
    {}
    lemma_div_is_ordered(na, nb, d);
}

} // verus!
