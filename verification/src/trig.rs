//! Exact fixed-point sine and cosine over micro-radians.
//!
//! Angles are first reduced into one full turn, so the functions are exactly
//! periodic in `TAU_FP`. Within a half turn the sine is the classical
//! rational approximation `16 x (pi - x) / (5 pi^2 - 4 x (pi - x))`, carried
//! out in integers; it is exact at every quarter turn and its magnitude never
//! exceeds `SCALE`.

use vstd::prelude::*;

use crate::fixed::{HALF_PI_FP, PI_FP, SCALE, TAU_FP};

verus! {

/// The angle congruent to `a` modulo one full turn, in `[0, TAU_FP)`.
pub open spec fn reduced(a: int) -> int {
    a % (TAU_FP as int)
}

/// Sine over one half turn, scaled by `SCALE`: the rational approximation
/// `16 x (pi - x) / (5 pi^2 - 4 x (pi - x))` on integers in micro-radians.
pub open spec fn sin_half_turn(x: int) -> int
    recommends
        0 <= x <= PI_FP,
{
    let y: int = x * (PI_FP - x);
    (16 * y * SCALE) / (5 * PI_FP * PI_FP - 4 * y)
}

/// Sine over one full turn, scaled by `SCALE`: the second half turn mirrors
/// the first with its sign flipped.
pub open spec fn sin_full_turn(a: int) -> int
    recommends
        0 <= a < TAU_FP,
{
    if a <= PI_FP {
        sin_half_turn(a)
    } else {
        -sin_half_turn(a - PI_FP)
    }
}

/// Sine of any micro-radian angle, scaled by `SCALE`.
pub open spec fn sin_fp_spec(a: int) -> int {
    sin_full_turn(reduced(a))
}

/// Cosine of any micro-radian angle, scaled by `SCALE`: the sine a quarter
/// turn ahead.
pub open spec fn cos_fp_spec(a: int) -> int {
    sin_fp_spec(a + HALF_PI_FP)
}

/// Reduces an angle into `[0, TAU_FP)`, keeping its congruence class.
pub fn reduce_angle(a: i64) -> (r: i64)
    ensures
        r == reduced(a as int),
        0 <= r < TAU_FP,
{
    proof {
        vstd::arithmetic::div_mod::lemma_mod_bound(a as int, TAU_FP as int);
    }
    if a >= 0 {
        let r: u64 = (a as u64) % (TAU_FP as u64);
        r as i64
    } else {
        let m: u128 = (-(a as i128)) as u128;
        let rm: u128 = m % (TAU_FP as u128);
        proof {
            let t: int = TAU_FP as int;
            let q: int = (m as int) / t;
            vstd::arithmetic::div_mod::lemma_fundamental_div_mod(m as int, t);
            if rm == 0 {
                vstd::arithmetic::div_mod::lemma_fundamental_div_mod_converse(
                    a as int,
                    t,
                    -q,
                    0,
                );
            } else {
                vstd::arithmetic::div_mod::lemma_fundamental_div_mod_converse(
                    a as int,
                    t,
                    -q - 1,
                    t - (rm as int),
                );
            }
        }
        if rm == 0 {
            0
        } else {
            (TAU_FP as u128 - rm) as i64
        }
    }
}

/// Sine over one half turn of micro-radians; exact at `0`, `HALF_PI_FP` and
/// `PI_FP`, and never larger in magnitude than `SCALE`.
fn sin_half(x: i64) -> (r: i64)
    requires
        0 <= x <= PI_FP,
    ensures
        r == sin_half_turn(x as int),
        0 <= r <= SCALE,
{
    proof {
        assert(0 <= x * (PI_FP - x) && 4 * (x * (PI_FP - x)) <= PI_FP * PI_FP)
            by (nonlinear_arith)
            requires
                0 <= x <= PI_FP,
        {
            assert((PI_FP - 2 * x) * (PI_FP - 2 * x) >= 0);
        };
    }
    let y: i64 = x * (PI_FP - x);
    let den: i64 = 5 * (PI_FP * PI_FP) - 4 * y;
    let num: u128 = 16 * (y as u128) * (SCALE as u128);
    let q: u128 = num / (den as u128);
    proof {
        let ni: int = 16 * (y as int) * (SCALE as int);
        let di: int = den as int;
        assert(ni <= (SCALE as int) * di) by (nonlinear_arith)
            requires
                0 <= y,
                4 * (y as int) <= PI_FP * PI_FP,
                ni == 16 * (y as int) * (SCALE as int),
                di == 5 * PI_FP * PI_FP - 4 * (y as int),
        ;
        vstd::arithmetic::div_mod::lemma_div_is_ordered(ni, (SCALE as int) * di, di);
        vstd::arithmetic::div_mod::lemma_div_by_multiple(SCALE as int, di);
        vstd::arithmetic::div_mod::lemma_div_pos_is_pos(ni, di);
    }
    q as i64
}

/// Sine of any micro-radian angle, scaled by `SCALE`.
pub fn sin_fp(a: i64) -> (r: i64)
    ensures
        r == sin_fp_spec(a as int),
        -SCALE <= r <= SCALE,
{
    let ar: i64 = reduce_angle(a);
    if ar <= PI_FP {
        sin_half(ar)
    } else {
        -sin_half(ar - PI_FP)
    }
}

/// Cosine of any micro-radian angle, scaled by `SCALE`.
pub fn cos_fp(a: i64) -> (r: i64)
    ensures
        r == cos_fp_spec(a as int),
        -SCALE <= r <= SCALE,
{
    let ar: i64 = reduce_angle(a);
    proof {
        let t: int = TAU_FP as int;
        vstd::arithmetic::div_mod::lemma_small_mod(HALF_PI_FP as nat, TAU_FP as nat);
        vstd::arithmetic::div_mod::lemma_add_mod_noop(a as int, HALF_PI_FP as int, t);
        vstd::arithmetic::div_mod::lemma_mod_twice(ar + HALF_PI_FP, t);
        assert(reduced(ar as int + HALF_PI_FP) == reduced(a as int + HALF_PI_FP));
    }
    sin_fp(ar + HALF_PI_FP)
}

/// The sine, and with it the cosine, repeats exactly after one full turn.
pub proof fn lemma_sin_fp_periodic(a: int)
    ensures
        sin_fp_spec(a + TAU_FP) == sin_fp_spec(a),
{
    vstd::arithmetic::div_mod::lemma_mod_add_multiples_vanish(a, TAU_FP as int);
}

} // verus!
