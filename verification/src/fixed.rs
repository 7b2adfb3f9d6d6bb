//! Fixed-point scalars and the few arithmetic helpers the camera and
//! renderer need.
//!
//! A scalar is an `i64` holding `SCALE` times its real value: `SCALE` itself
//! is 1.0. World positions, speeds, seconds and degrees all use this one
//! scale, and so do sines and cosines, which therefore lie in
//! `[-SCALE, SCALE]`.

use vstd::prelude::*;

verus! {

use vstd::arithmetic::div_mod::{
    lemma_div_nonincreasing,
    lemma_div_pos_is_pos,
    lemma_multiply_divide_le,
};

/// Fixed-point unit: an `i64` scalar holds `SCALE` times its real value.
pub const SCALE: i64 = 65536;

/// Largest magnitude a velocity scalar (units per second, times `SCALE`)
/// may have when it enters movement integration.
pub const VEL_LIMIT: i64 = 0x1_0000_0000;

/// Largest time step (seconds, times `SCALE`) movement integration accepts:
/// sixteen seconds, far beyond any real frame.
pub const DT_LIMIT: i64 = 0x10_0000;

/// Largest magnitude one integration step can reach:
/// `VEL_LIMIT * DT_LIMIT / SCALE`.
pub const STEP_LIMIT: i64 = 0x10_0000_0000;

/// Division truncated toward zero, the rounding the executable code uses
/// when it scales a product back down.
pub open spec fn div_trunc(a: int, b: int) -> int
    recommends
        b > 0,
{
    if a >= 0 {
        a / b
    } else {
        -((-a) / b)
    }
}

/// One integration step: a direction component `dir` (a fixed-point sine or
/// cosine), a velocity and a time step, multiplied and scaled back to
/// fixed-point units, truncated toward zero.
pub open spec fn step(dir: int, velo: int, dt: int) -> int {
    div_trunc(dir * velo * dt, SCALE * SCALE)
}

/// Bound the magnitude of a product from bounds on its factors.
pub proof fn lemma_mul_bound(a: int, b: int, ab: int, bb: int)
    by (nonlinear_arith)
    requires
        -ab <= a <= ab,
        -bb <= b <= bb,
        0 <= ab,
        0 <= bb,
    ensures
        -(ab * bb) <= a * b <= ab * bb,
{
}

/// Division truncated toward zero shrinks a bound of the form `b * m` to `m`.
pub proof fn lemma_div_trunc_bound(a: int, b: int, m: int)
    requires
        b > 0,
        0 <= m,
        -(b * m) <= a <= b * m,
    ensures
        -m <= div_trunc(a, b) <= m,
        a == 0 ==> div_trunc(a, b) == 0,
{
    if a >= 0 {
        lemma_div_pos_is_pos(a, b);
        lemma_multiply_divide_le(a, b, m);
    } else {
        lemma_div_pos_is_pos(-a, b);
        lemma_multiply_divide_le(-a, b, m);
    }
}

/// An integration step from bounded factors stays within `STEP_LIMIT`.
pub proof fn lemma_step_bound(dir: int, velo: int, dt: int)
    requires
        -SCALE <= dir <= SCALE,
        -VEL_LIMIT <= velo <= VEL_LIMIT,
        0 <= dt <= DT_LIMIT,
    ensures
        -STEP_LIMIT <= step(dir, velo, dt) <= STEP_LIMIT,
{
    lemma_mul_bound(dir, velo, SCALE as int, VEL_LIMIT as int);
    lemma_mul_bound(dir * velo, dt, SCALE as int * VEL_LIMIT as int, DT_LIMIT as int);
    assert(SCALE as int * VEL_LIMIT as int * DT_LIMIT as int == (SCALE as int * SCALE as int)
        * STEP_LIMIT as int);
    lemma_div_trunc_bound(dir * velo * dt, SCALE as int * SCALE as int, STEP_LIMIT as int);
}

/// A zero factor makes the whole step zero.
pub proof fn lemma_step_of_zero_velocity(dir: int, dt: int)
    ensures
        step(dir, 0, dt) == 0,
{
    assert(dir * 0 * dt == 0) by (nonlinear_arith);
}

/// Scale a fixed-point product back down by one factor of `SCALE`,
/// truncating toward zero.
pub fn fp_scale_down(a: i64) -> (r: i64)
    requires
        -0x4000_0000_0000_0000 <= a <= 0x4000_0000_0000_0000,
    ensures
        r == div_trunc(a as int, SCALE as int),
{
    if a >= 0 {
        proof {
            lemma_div_pos_is_pos(a as int, SCALE as int);
            lemma_div_nonincreasing(a as int, SCALE as int);
        }
        a / SCALE
    } else {
        proof {
            lemma_div_pos_is_pos(-(a as int), SCALE as int);
            lemma_div_nonincreasing(-(a as int), SCALE as int);
        }
        -((-a) / SCALE)
    }
}

/// Compute `step(dir, velo, dt)` exactly, using a 128-bit intermediate so
/// the triple product cannot overflow.
pub fn fp_step(dir: i64, velo: i64, dt: i64) -> (r: i64)
    requires
        -SCALE <= dir <= SCALE,
        -VEL_LIMIT <= velo <= VEL_LIMIT,
        0 <= dt <= DT_LIMIT,
    ensures
        r == step(dir as int, velo as int, dt as int),
        -STEP_LIMIT <= r <= STEP_LIMIT,
{
    proof {
        lemma_mul_bound(dir as int, velo as int, SCALE as int, VEL_LIMIT as int);
        lemma_mul_bound(
            dir as int * velo as int,
            dt as int,
            SCALE as int * VEL_LIMIT as int,
            DT_LIMIT as int,
        );
        assert(SCALE as int * VEL_LIMIT as int * DT_LIMIT as int == (SCALE as int * SCALE as int)
            * STEP_LIMIT as int);
        lemma_div_trunc_bound(
            dir as int * velo as int * dt as int,
            SCALE as int * SCALE as int,
            STEP_LIMIT as int,
        );
    }
    let p: i128 = dir as i128 * velo as i128 * dt as i128;
    let q: i128 = if p >= 0 {
        p / (SCALE as i128 * SCALE as i128)
    } else {
        -((-p) / (SCALE as i128 * SCALE as i128))
    };
    q as i64
}

} // verus!
