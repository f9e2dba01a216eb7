//! Fixed-point base: scale constants, small vector records, truncating
//! division and clamping, all over `i64` micro-units.

use vstd::prelude::*;

verus! {

/// Number of micro-units in one world-space unit (or micro-radians in one
/// radian).
pub const SCALE: i64 = 1_000_000;

/// One half turn (pi radians) in micro-radians, truncated to an even value so
/// that quarter and full turns are exact multiples of it.
pub const PI_FP: i64 = 3_141_592;

/// A quarter turn (pi / 2 radians) in micro-radians; exactly half of `PI_FP`.
pub const HALF_PI_FP: i64 = 1_570_796;

/// A full turn (2 * pi radians) in micro-radians; exactly twice `PI_FP`.
pub const TAU_FP: i64 = 6_283_184;

/// A 2-component fixed-point vector (screen coordinates, pan offsets).
#[derive(Clone, Copy, Debug, PartialEq, Eq, Structural)]
pub struct Vec2Fp {
    pub x: i64,
    pub y: i64,
}

/// A 3-component fixed-point vector (world-space points).
#[derive(Clone, Copy, Debug, PartialEq, Eq, Structural)]
pub struct Vec3Fp {
    pub x: i64,
    pub y: i64,
    pub z: i64,
}

/// Division that truncates toward zero, as hardware division does; `b` is
/// expected to be positive.
pub open spec fn div_trunc(a: int, b: int) -> int {
    if a >= 0 {
        a / b
    } else {
        -((-a) / b)
    }
}

/// `v` clamped into `[lo, hi]`.
pub open spec fn clamp_spec(v: int, lo: int, hi: int) -> int {
    if v < lo {
        lo
    } else if v > hi {
        hi
    } else {
        v
    }
}

/// Truncating division of an `i64` by a small positive divisor.
pub fn div_trunc_i64(a: i64, b: u64) -> (r: i64)
    requires
        2 <= b <= 0x7fff_ffff_ffff_ffff,
    ensures
        r == div_trunc(a as int, b as int),
        -0x4000_0000_0000_0000 <= r <= 0x4000_0000_0000_0000,
{
    if a >= 0 {
        let q: u64 = (a as u64) / b;
        assert(q <= (a as int) / 2) by {
            vstd::arithmetic::div_mod::lemma_div_is_ordered_by_denominator(a as int, 2, b as int);
        };
        q as i64
    } else {
        let m: u128 = (-(a as i128)) as u128;
        let q: u128 = m / (b as u128);
        assert(q <= (m as int) / 2) by {
            vstd::arithmetic::div_mod::lemma_div_is_ordered_by_denominator(m as int, 2, b as int);
        };
        -(q as i64)
    }
}

/// Truncating division of an `i128` by a positive divisor; the extreme
/// negative value is excluded so that its magnitude exists.
pub fn div_trunc_i128(a: i128, b: u64) -> (r: i128)
    requires
        2 <= b <= 0x7fff_ffff_ffff_ffff,
        -0x7fff_ffff_ffff_ffff_ffff_ffff_ffff_ffff <= a,
    ensures
        r == div_trunc(a as int, b as int),
        -0x4000_0000_0000_0000_0000_0000_0000_0000 <= r
            <= 0x4000_0000_0000_0000_0000_0000_0000_0000,
{
    if a >= 0 {
        let q: u128 = (a as u128) / (b as u128);
        assert(q <= (a as int) / 2) by {
            vstd::arithmetic::div_mod::lemma_div_is_ordered_by_denominator(a as int, 2, b as int);
        };
        q as i128
    } else {
        let m: u128 = (-a) as u128;
        let q: u128 = m / (b as u128);
        assert(q <= (m as int) / 2) by {
            vstd::arithmetic::div_mod::lemma_div_is_ordered_by_denominator(m as int, 2, b as int);
        };
        -(q as i128)
    }
}

/// Bounds the magnitude of a truncating quotient: if `|a| <= m * b`, then
/// `|div_trunc(a, b)| <= m`.
pub proof fn lemma_div_trunc_bound(a: int, b: int, m: int)
    requires
        1 <= b,
        0 <= m,
        -(m * b) <= a <= m * b,
    ensures
        -m <= div_trunc(a, b) <= m,
{
    if a >= 0 {
        vstd::arithmetic::div_mod::lemma_div_is_ordered(a, m * b, b);
        vstd::arithmetic::div_mod::lemma_div_by_multiple(m, b);
        vstd::arithmetic::div_mod::lemma_div_pos_is_pos(a, b);
    } else {
        vstd::arithmetic::div_mod::lemma_div_is_ordered(-a, m * b, b);
        vstd::arithmetic::div_mod::lemma_div_by_multiple(m, b);
        vstd::arithmetic::div_mod::lemma_div_pos_is_pos(-a, b);
    }
}

} // verus!
