//! Fixed-point progress, linear blending of magnitudes, and easing.
use vstd::prelude::*;

verus! {

/// The fixed-point value of progress 1; progress 0 is `0`.
pub const UNIT: u32 = 1_000_000;

/// Linear blend of `a` towards `b` at progress `t` (out of `UNIT`),
/// rounded towards `a`.
pub open spec fn lerp_spec(a: int, b: int, t: int) -> int {
    if a <= b {
        a + (b - a) * t / (UNIT as int)
    } else {
        a - (a - b) * t / (UNIT as int)
    }
}

proof fn lemma_scaled_le(d: int, t: int)
    requires
        0 <= d,
        0 <= t <= UNIT,
    ensures
        0 <= d * t / (UNIT as int) <= d,
        t == 0 ==> d * t / (UNIT as int) == 0,
        t == UNIT ==> d * t / (UNIT as int) == d,
{
    assert(0 <= d * t <= d * (UNIT as int)) by (nonlinear_arith)
        requires
            0 <= d,
            0 <= t <= UNIT,
    ;
    vstd::arithmetic::div_mod::lemma_div_is_ordered(d * t, d * (UNIT as int), UNIT as int);
    vstd::arithmetic::div_mod::lemma_div_multiples_vanish(d, UNIT as int);
    assert(d * (UNIT as int) / (UNIT as int) == d);
}

/// `lerp_spec` stays between its operands and meets them at the ends.
pub proof fn lemma_lerp_bounds(a: int, b: int, t: int)
    requires
        0 <= t <= UNIT,
    ensures
        a <= b ==> a <= lerp_spec(a, b, t) <= b,
        b < a ==> b <= lerp_spec(a, b, t) <= a,
        lerp_spec(a, b, 0) == a,
        lerp_spec(a, b, UNIT as int) == b,
{
    if a <= b {
        lemma_scaled_le(b - a, t);
        lemma_scaled_le(b - a, 0);
        lemma_scaled_le(b - a, UNIT as int);
    } else {
        lemma_scaled_le(a - b, t);
        lemma_scaled_le(a - b, 0);
        lemma_scaled_le(a - b, UNIT as int);
    }
}

/// Blends two magnitudes; exact at `t == 0` and `t == UNIT`.
pub fn lerp(a: i32, b: i32, t: u32) -> (r: i32)
    requires
        t <= UNIT,
    ensures
        r == lerp_spec(a as int, b as int, t as int),
{
    proof {
        lemma_lerp_bounds(a as int, b as int, t as int);
    }
    if a <= b {
        let d: u64 = (b as i64 - a as i64) as u64;
        proof {
            assert(d * (t as u64) <= d * (UNIT as u64)) by (nonlinear_arith)
                requires
                    t <= UNIT,
            ;
        }
        let step: u64 = d * (t as u64) / (UNIT as u64);
        (a as i64 + step as i64) as i32
    } else {
        let d: u64 = (a as i64 - b as i64) as u64;
        proof {
            assert(d * (t as u64) <= d * (UNIT as u64)) by (nonlinear_arith)
                requires
                    t <= UNIT,
            ;
        }
        let step: u64 = d * (t as u64) / (UNIT as u64);
        (a as i64 - step as i64) as i32
    }
}

/// How a keyframe segment moves from its start value to its end value.
#[derive(Clone, Copy, Debug, PartialEq, Eq, Structural)]
pub enum Easing {
    Linear,
    QuadraticIn,
    QuadraticOut,
    SmoothStep,
}

/// Eased progress for local progress `u` (both out of `UNIT`).
pub open spec fn ease_spec(e: Easing, u: int) -> int {
    let one = UNIT as int;
    match e {
        Easing::Linear => u,
        Easing::QuadraticIn => u * u / one,
        Easing::QuadraticOut => one - (one - u) * (one - u) / one,
        Easing::SmoothStep => u * u * (3 * one - 2 * u) / (one * one),
    }
}

/// Every easing maps the unit interval into itself and fixes both ends.
pub proof fn lemma_ease_bounds(e: Easing, u: int)
    requires
        0 <= u <= UNIT,
    ensures
        0 <= ease_spec(e, u) <= UNIT,
        ease_spec(e, 0) == 0,
        ease_spec(e, UNIT as int) == UNIT,
{
    let one = UNIT as int;
    assert(0 <= u * u <= one * one) by (nonlinear_arith)
        requires
            0 <= u <= one,
    ;
    assert(0 <= (one - u) * (one - u) <= one * one) by (nonlinear_arith)
        requires
            0 <= u <= one,
    ;
    assert(0 <= u * u * (3 * one - 2 * u) <= one * one * one) by (nonlinear_arith)
        requires
            0 <= u <= one,
            one > 0,
    ;
    vstd::arithmetic::div_mod::lemma_div_is_ordered(u * u, one * one, one);
    vstd::arithmetic::div_mod::lemma_div_is_ordered(0, u * u, one);
    vstd::arithmetic::div_mod::lemma_div_is_ordered((one - u) * (one - u), one * one, one);
    vstd::arithmetic::div_mod::lemma_div_is_ordered(0, (one - u) * (one - u), one);
    vstd::arithmetic::div_mod::lemma_div_is_ordered(u * u * (3 * one - 2 * u), one * one * one, one * one);
    vstd::arithmetic::div_mod::lemma_div_is_ordered(0, u * u * (3 * one - 2 * u), one * one);
    vstd::arithmetic::div_mod::lemma_div_multiples_vanish(one, one);
    vstd::arithmetic::div_mod::lemma_div_multiples_vanish(one, one * one);
    assert(one * one * one == one * (one * one)) by (nonlinear_arith);
    assert(one * one * (3 * one - 2 * one) == one * one * one) by (nonlinear_arith);
    assert(0 * 0 * (3 * one - 2 * 0) == 0) by (nonlinear_arith);
    assert(0int / one == 0);
    assert(0int / (one * one) == 0);
}

/// Applies an easing to local progress `u`.
pub fn ease(e: Easing, u: u32) -> (r: u32)
    requires
        u <= UNIT,
    ensures
        r == ease_spec(e, u as int),
        r <= UNIT,
{
    proof {
        lemma_ease_bounds(e, u as int);
    }
    let one: u128 = UNIT as u128;
    let x: u128 = u as u128;
    match e {
        Easing::Linear => u,
        Easing::QuadraticIn => {
            assert(x * x <= one * one) by (nonlinear_arith)
                requires
                    x <= one,
            ;
            (x * x / one) as u32
        },
        Easing::QuadraticOut => {
            let rest: u128 = one - x;
            assert(rest * rest <= one * one) by (nonlinear_arith)
                requires
                    rest <= one,
            ;
            (one - rest * rest / one) as u32
        },
        Easing::SmoothStep => {
            assert(x * x <= one * one) by (nonlinear_arith)
                requires
                    x <= one,
            ;
            assert(x * x * (3 * one - 2 * x) <= one * one * (3 * one)) by (nonlinear_arith)
                requires
                    x <= one,
            ;
            (x * x * (3 * one - 2 * x) / (one * one)) as u32
        },
    }
}

} // verus!
