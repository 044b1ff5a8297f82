//! Integer helpers shared by the drivers: truncating and flooring division
//! with exact contracts, and big-endian assembly of 16-bit register values.
//!
//! The compensation formulas in the driver modules are stated over `int`
//! using Verus's Euclidean `/` (which is floor division for a positive
//! divisor, the same as a two's-complement arithmetic shift) and [`tdiv`]
//! (C-style division truncating toward zero, the behaviour of Rust's `/`).

use vstd::arithmetic::div_mod::{
    lemma_div_is_ordered, lemma_div_is_ordered_by_denominator, lemma_div_nonincreasing,
    lemma_div_pos_is_pos, lemma_fundamental_div_mod, lemma_mod_division_less_than_divisor,
};
use vstd::prelude::*;

verus! {

/// Division truncating toward zero, the semantics of Rust's `/` on signed
/// integers; unspecified when `d == 0`.
pub open spec fn tdiv(x: int, d: int) -> int {
    if x == 0 {
        0
    } else if x > 0 && d > 0 {
        x / d
    } else if x < 0 && d < 0 {
        (x * -1) / (d * -1)
    } else if x < 0 {
        ((x * -1) / d) * -1
    } else {
        (x / (d * -1)) * -1
    }
}

/// Floor division by a positive divisor stays between the dividend and zero.
pub proof fn lemma_div_floor_bounds(a: int, d: int)
    requires
        1 <= d,
    ensures
        a >= 0 ==> 0 <= a / d <= a,
        a < 0 ==> a <= a / d <= 0,
{
    if a >= 0 {
        lemma_div_nonincreasing(a, d);
        if a > 0 {
            lemma_div_pos_is_pos(a, d);
        } else {
            assert(0int / d == 0) by {
                lemma_fundamental_div_mod(0, d);
                lemma_mod_division_less_than_divisor(0, d);
                let q = 0int / d;
                let r = 0int % d;
                assert(d * q + r == 0);
                assert(q <= 0 && q >= 0) by (nonlinear_arith)
                    requires
                        d * q + r == 0,
                        0 <= r < d,
                        1 <= d,
                {}
            }
        }
    } else {
        lemma_fundamental_div_mod(a, d);
        lemma_mod_division_less_than_divisor(a, d);
        let q = a / d;
        let r = a % d;
        assert(a <= q <= 0) by (nonlinear_arith)
            requires
                d * q + r == a,
                0 <= r < d,
                1 <= d,
                a < 0,
        {}
    }
}

/// A product is bounded by the product of the factors' bounds.
pub proof fn lemma_mul_bounds(a: int, amax: int, b: int, bmax: int)
    by (nonlinear_arith)
    requires
        -amax <= a <= amax,
        -bmax <= b <= bmax,
        0 <= amax,
        0 <= bmax,
    ensures
        -(amax * bmax) <= a * b <= amax * bmax,
{
}

/// Floor division by `d` of a value bounded by `bound` lies within
/// `[-(bound / d) - 1, bound / d]`.
pub proof fn lemma_div_range(a: int, bound: int, d: int)
    requires
        1 <= d,
        0 <= bound,
        -bound <= a <= bound,
    ensures
        -(bound / d) - 1 <= a / d <= bound / d,
{
    lemma_div_is_ordered(a, bound, d);
    lemma_div_is_ordered(-bound, a, d);
    lemma_div_floor_bounds(bound, d);
    lemma_fundamental_div_mod(bound, d);
    lemma_mod_division_less_than_divisor(bound, d);
    lemma_fundamental_div_mod(-bound, d);
    lemma_mod_division_less_than_divisor(-bound, d);
    let q = bound / d;
    let r = bound % d;
    let q2 = (-bound) / d;
    let r2 = (-bound) % d;
    assert(q2 >= -q - 1) by (nonlinear_arith)
        requires
            d * q + r == bound,
            0 <= r < d,
            d * q2 + r2 == -bound,
            0 <= r2 < d,
            1 <= d,
    {}
}

/// The truncating quotient shrinks with the magnitude of the divisor: when
/// `|d| >= dmin`, `|tdiv(a, d)| <= bound / dmin`.
pub proof fn lemma_tdiv_range(a: int, bound: int, d: int, dmin: int)
    requires
        1 <= dmin,
        d >= dmin || d <= -dmin,
        0 <= bound,
        -bound <= a <= bound,
    ensures
        -(bound / dmin) <= tdiv(a, d) <= bound / dmin,
{
    lemma_div_floor_bounds(bound, dmin);
    if a == 0 {
        lemma_div_pos_is_pos(bound, dmin);
        if bound > 0 {
        } else {
            lemma_div_floor_bounds(0, dmin);
        }
    } else if a > 0 && d > 0 {
        lemma_div_is_ordered_by_denominator(a, dmin, d);
        lemma_div_is_ordered(a, bound, dmin);
        lemma_div_pos_is_pos(a, d);
    } else if a < 0 && d < 0 {
        lemma_div_is_ordered_by_denominator(a * -1, dmin, d * -1);
        lemma_div_is_ordered(a * -1, bound, dmin);
        lemma_div_pos_is_pos(a * -1, d * -1);
    } else if a < 0 {
        lemma_div_is_ordered_by_denominator(a * -1, dmin, d);
        lemma_div_is_ordered(a * -1, bound, dmin);
        lemma_div_pos_is_pos(a * -1, d);
    } else {
        lemma_div_is_ordered_by_denominator(a, dmin, d * -1);
        lemma_div_is_ordered(a, bound, dmin);
        lemma_div_pos_is_pos(a, d * -1);
    }
}

/// Floor division of an `i64` by a positive divisor, with an exact contract.
pub fn div_floor_i64(a: i64, d: i64) -> (q: i64)
    requires
        d > 0,
    ensures
        q == a as int / d as int,
{
    proof {
        lemma_div_floor_bounds(a as int, d as int);
    }
    a.checked_div_euclid(d).unwrap()
}

/// Floor division of an `i128` by a positive divisor, with an exact contract.
pub fn div_floor_i128(a: i128, d: i128) -> (q: i128)
    requires
        d > 0,
    ensures
        q == a as int / d as int,
{
    proof {
        lemma_div_floor_bounds(a as int, d as int);
    }
    a.checked_div_euclid(d).unwrap()
}

/// The truncating quotient of two `i64` values is representable as an `i64`,
/// except for `i64::MIN / -1`.
proof fn lemma_tdiv_in_range(x: int, d: int)
    requires
        i64::MIN <= x <= i64::MAX,
        i64::MIN <= d <= i64::MAX,
        d != 0,
        !(x == i64::MIN && d == -1),
    ensures
        i64::MIN <= tdiv(x, d) <= i64::MAX,
{
    if x == 0 {
    } else if x > 0 && d > 0 {
        lemma_div_floor_bounds(x, d);
    } else if x < 0 && d < 0 {
        lemma_div_floor_bounds(x * -1, d * -1);
        if d == -1 {
            assert((x * -1) / 1 == x * -1) by {
                lemma_fundamental_div_mod(x * -1, 1);
                lemma_mod_division_less_than_divisor(x * -1, 1);
            }
        } else {
            lemma_div_is_ordered_by_denominator(x * -1, 2, d * -1);
            lemma_div_is_ordered(x * -1, 0x8000_0000_0000_0000, 2);
        }
    } else if x < 0 {
        lemma_div_floor_bounds(x * -1, d);
    } else {
        lemma_div_floor_bounds(x, d * -1);
    }
}

/// Truncating division of an `i64`, the behaviour of Rust's `/`, with an
/// exact contract over [`tdiv`].
pub fn div_trunc_i64(a: i64, d: i64) -> (q: i64)
    requires
        d != 0,
        !(a == i64::MIN && d == -1),
    ensures
        q == tdiv(a as int, d as int),
{
    proof {
        lemma_tdiv_in_range(a as int, d as int);
    }
    a.checked_div(d).unwrap()
}

/// The big-endian unsigned 16-bit value held by two register bytes.
pub open spec fn spec_u16_from_be(msb: u8, lsb: u8) -> u16 {
    (msb * 256 + lsb) as u16
}

/// The big-endian signed 16-bit value held by two register bytes: the
/// unsigned value reinterpreted in two's complement.
pub open spec fn spec_i16_from_be(msb: u8, lsb: u8) -> i16 {
    spec_u16_from_be(msb, lsb) as i16
}

/// Assembles two big-endian bytes into a signed 16-bit register value.
pub fn to_i16(msb: u8, lsb: u8) -> (r: i16)
    ensures
        r == spec_i16_from_be(msb, lsb),
{
    ((msb as u16) * 256 + (lsb as u16)) as i16
}

/// Assembles two big-endian bytes into an unsigned 16-bit register value.
pub fn to_u16(msb: u8, lsb: u8) -> (r: u16)
    ensures
        r == spec_u16_from_be(msb, lsb),
{
    (msb as u16) * 256 + (lsb as u16)
}

/// Relates the signed reinterpretation to the unsigned value: the two agree
/// below `0x8000` and differ by `0x1_0000` above.
pub proof fn lemma_i16_from_be_value(msb: u8, lsb: u8)
    ensures
        spec_u16_from_be(msb, lsb) == msb * 256 + lsb,
        spec_u16_from_be(msb, lsb) < 0x8000 ==> spec_i16_from_be(msb, lsb) == spec_u16_from_be(
            msb,
            lsb,
        ) as int,
        spec_u16_from_be(msb, lsb) >= 0x8000 ==> spec_i16_from_be(msb, lsb) == spec_u16_from_be(
            msb,
            lsb,
        ) - 0x1_0000,
{
    let v = spec_u16_from_be(msb, lsb);
    assert(v < 0x8000 ==> v as i16 == v as int) by (bit_vector);
    assert(v >= 0x8000 ==> v as i16 == v - 0x1_0000) by (bit_vector);
}

} // verus!
