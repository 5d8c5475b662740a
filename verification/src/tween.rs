//! Easing functions and linear interpolation in fixed-point arithmetic.
//!
//! A fraction of a motion is a count of millionths: zero stands for the
//! start, [`UNIT`] for the whole. A tween maps the fraction of the time that
//! has passed to the fraction of the way that has been covered, which may
//! lie below zero or above one. A tween is normalized if it maps zero to
//! zero and `UNIT` to `UNIT`.

use vstd::prelude::*;

verus! {

/// The fixed-point representation of one: a million millionths.
pub const UNIT: u32 = 1_000_000;

/// The fixed-point representation of one half.
pub const HALF: u32 = 500_000;

/// The quotient of `a` by a positive `b`, rounded toward zero.
pub open spec fn trunc_div(a: int, b: int) -> int {
    if a >= 0 {
        a / b
    } else {
        -((-a) / b)
    }
}

/// The nearest value to `v` that a screen coordinate can hold.
pub open spec fn saturate(v: int) -> int {
    if v < i32::MIN {
        i32::MIN as int
    } else if v > i32::MAX {
        i32::MAX as int
    } else {
        v
    }
}

/// The coordinate that lies the fraction `ratio` (in millionths) of the way
/// from `from` to `to`: the offset is rounded toward zero, and the sum is
/// held within the range of a coordinate.
pub open spec fn spec_interpolate(from: int, to: int, ratio: int) -> int {
    saturate(from + trunc_div((to - from) * ratio, UNIT as int))
}

/// At ratio zero the interpolated coordinate is the start, at ratio one the
/// end.
pub proof fn lemma_interpolate_endpoints(from: i32, to: i32)
    ensures
        spec_interpolate(from as int, to as int, 0) == from,
        spec_interpolate(from as int, to as int, UNIT as int) == to,
{
    let d = to - from;
    assert(d * 0 == 0);
    assert(d * 1_000_000 / 1_000_000 == d);
    assert((-(d * 1_000_000)) / 1_000_000 == -d);
}

/// For a ratio between zero and one the interpolated coordinate lies between
/// the start and the end, so that nothing is cut off.
pub proof fn lemma_interpolate_between(from: i32, to: i32, ratio: int)
    requires
        0 <= ratio <= UNIT,
    ensures
        spec_interpolate(from as int, to as int, ratio) == from + trunc_div(
            (to - from) * ratio,
            UNIT as int,
        ),
        from <= to ==> from <= spec_interpolate(from as int, to as int, ratio) <= to,
        to <= from ==> to <= spec_interpolate(from as int, to as int, ratio) <= from,
{
    let d = to - from;
    if d >= 0 {
        assert(0 <= d * ratio <= d * 1_000_000) by (nonlinear_arith)
            requires
                0 <= d,
                0 <= ratio <= 1_000_000,
        ;
    } else {
        assert(0 <= (-d) * ratio <= (-d) * 1_000_000 && -(d * ratio) == (-d) * ratio)
            by (nonlinear_arith)
            requires
                d < 0,
                0 <= ratio <= 1_000_000,
        ;
    }
}

/// The coordinate that lies the fraction `ratio` (in millionths) of the way
/// from `from` to `to`. A ratio below zero or above one extrapolates.
pub fn interpolate(from: i32, to: i32, ratio: i64) -> (r: i32)
    ensures
        r == spec_interpolate(from as int, to as int, ratio as int),
{
    let d: i128 = to as i128 - from as i128;
    let k: i128 = ratio as i128;
    assert(-0x1_0000_0000_0000_0000_0000_0000 <= d * k <= 0x1_0000_0000_0000_0000_0000_0000)
        by (nonlinear_arith)
        requires
            -0x1_0000_0000 <= d <= 0x1_0000_0000,
            -0x1_0000_0000_0000_0000 <= k <= 0x1_0000_0000_0000_0000,
    ;
    let offset: i128 = (d * k) / 1_000_000;
    let sum: i128 = from as i128 + offset;
    if sum < -2147483648 {
        i32::MIN
    } else if sum > 2147483647 {
        i32::MAX
    } else {
        sum as i32
    }
}

/// The linear tween: progress equals elapsed time.
pub open spec fn spec_linear_tween(t: int) -> int {
    t
}

/// The quadratic ease-in tween: the square of the elapsed time.
pub open spec fn spec_ease_in_quad(t: int) -> int {
    t * t / (UNIT as int)
}

/// The quadratic ease-out tween: `t (2 - t)`.
pub open spec fn spec_ease_out_quad(t: int) -> int {
    t * (2 * UNIT - t) / (UNIT as int)
}

/// The first branch of the quadratic ease-in-out tween: `2 t t`.
pub open spec fn spec_ease_in_out_first(t: int) -> int {
    2 * t * t / (UNIT as int)
}

/// The second branch of the quadratic ease-in-out tween: `-1 + (4 - 2 t) t`.
pub open spec fn spec_ease_in_out_second(t: int) -> int {
    (4 * UNIT - 2 * t) * t / (UNIT as int) - UNIT
}

/// The quadratic ease-in-out tween: the first branch below one half, the
/// second from one half on.
pub open spec fn spec_ease_in_out_quad(t: int) -> int {
    if 2 * t < UNIT {
        spec_ease_in_out_first(t)
    } else {
        spec_ease_in_out_second(t)
    }
}

/// The linear tween: progress equals elapsed time.
pub fn linear_tween(t: u32) -> (r: i64)
    requires
        t <= UNIT,
    ensures
        r == spec_linear_tween(t as int),
        0 <= r <= UNIT,
{
    t as i64
}

/// The quadratic ease-in tween: slow at first, then faster.
pub fn ease_in_quad(t: u32) -> (r: i64)
    requires
        t <= UNIT,
    ensures
        r == spec_ease_in_quad(t as int),
        0 <= r <= UNIT,
{
    let t: u64 = t as u64;
    assert(0 <= t * t <= 1_000_000 * 1_000_000) by (nonlinear_arith)
        requires
            0 <= t <= 1_000_000,
    ;
    (t * t / 1_000_000) as i64
}

/// The quadratic ease-out tween: fast at first, then slower.
pub fn ease_out_quad(t: u32) -> (r: i64)
    requires
        t <= UNIT,
    ensures
        r == spec_ease_out_quad(t as int),
        0 <= r <= UNIT,
{
    let t: u64 = t as u64;
    let rest: u64 = 2_000_000 - t;
    assert(0 <= t * rest <= 1_000_000 * 1_000_000) by (nonlinear_arith)
        requires
            0 <= t <= 1_000_000,
            rest == 2_000_000 - t,
    ;
    (t * rest / 1_000_000) as i64
}

/// The quadratic ease-in-out tween: slow at both ends, fast in the middle.
pub fn ease_in_out_quad(t: u32) -> (r: i64)
    requires
        t <= UNIT,
    ensures
        r == spec_ease_in_out_quad(t as int),
        0 <= r <= UNIT,
{
    let t: u64 = t as u64;
    if t < 500_000 {
        assert(0 <= 2 * t * t <= 500_000 * 1_000_000) by (nonlinear_arith)
            requires
                0 <= t < 500_000,
        ;
        (2 * t * t / 1_000_000) as i64
    } else {
        let rest: u64 = 4_000_000 - 2 * t;
        assert(1_000_000 * 1_000_000 <= rest * t <= 2 * 1_000_000 * 1_000_000)
            by (nonlinear_arith)
            requires
                500_000 <= t <= 1_000_000,
                rest == 4_000_000 - 2 * t,
        ;
        (rest * t / 1_000_000 - 1_000_000) as i64
    }
}

/// Each built-in tween is normalized: it maps zero to zero and one to one.
pub proof fn lemma_builtin_tweens_normalized()
    ensures
        spec_linear_tween(0) == 0 && spec_linear_tween(UNIT as int) == UNIT,
        spec_ease_in_quad(0) == 0 && spec_ease_in_quad(UNIT as int) == UNIT,
        spec_ease_out_quad(0) == 0 && spec_ease_out_quad(UNIT as int) == UNIT,
        spec_ease_in_out_quad(0) == 0 && spec_ease_in_out_quad(UNIT as int) == UNIT,
{
    assert(1_000_000int * 1_000_000 / 1_000_000 == 1_000_000);
    assert(2_000_000int * 1_000_000 / 1_000_000 == 2_000_000);
}

/// The two branches of the quadratic ease-in-out tween meet at one half,
/// where both give one half.
pub proof fn lemma_ease_in_out_quad_continuous()
    ensures
        spec_ease_in_out_first(HALF as int) == HALF,
        spec_ease_in_out_second(HALF as int) == HALF,
        spec_ease_in_out_quad(HALF as int) == HALF,
{
    assert(2int * 500_000 * 500_000 / 1_000_000 == 500_000);
    assert((4_000_000int - 2 * 500_000) * 500_000 / 1_000_000 == 1_500_000);
}

} // verus!
