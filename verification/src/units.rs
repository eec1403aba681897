//! Fixed-point quantities.
//!
//! Every real-valued parameter and sample is held as a whole number of
//! millionths: `UNIT` stands for 1.0, `250_000` for 0.25.
use vstd::prelude::*;

verus! {

/// One whole, in millionths.
pub const UNIT: u32 = 1_000_000;

/// The brightest level of an 8-bit channel.
pub const LEVEL_MAX: u8 = 255;

/// `v` limited to the interval from zero to one whole.
pub open spec fn unit_clamped(v: int) -> int {
    if v < 0 {
        0
    } else if v > UNIT as int {
        UNIT as int
    } else {
        v
    }
}

/// The 8-bit level of an intensity: clamped to the unit interval, scaled to
/// `0..=255` and rounded to the nearest level.
pub open spec fn level_of(v: int) -> int {
    (unit_clamped(v) * LEVEL_MAX as int + 500_000) / (UNIT as int)
}

/// The product of two fixed-point numbers, rounded down to a millionth.
pub open spec fn scaled(a: int, b: int) -> int {
    (a * b) / (UNIT as int)
}

/// The product of three fixed-point numbers, rounded down to a millionth.
pub open spec fn scaled3(a: int, b: int, c: int) -> int {
    (a * b * c) / (UNIT as int * UNIT as int)
}

/// Limits an intensity to the unit interval.
pub fn clamp_unit(v: i64) -> (r: u32)
    ensures
        r as int == unit_clamped(v as int),
{
    if v < 0 {
        0
    } else if v > 1_000_000 {
        UNIT
    } else {
        v as u32
    }
}

/// The 8-bit level of an intensity.
pub fn channel_level(v: i64) -> (r: u8)
    ensures
        r as int == level_of(v as int),
{
    let c: u32 = clamp_unit(v);
    let n: u32 = c * 255 + 500_000;
    let q: u32 = n / UNIT;
    assert(q <= 255);
    q as u8
}

/// Rounds a quotient by one whole down, also below zero.
fn floor_by_unit(n: i128) -> (r: i128)
    ensures
        r as int == (n as int) / (UNIT as int),
{
    let d: i128 = 1_000_000;
    let q: i128 = n / d;
    if n >= 0 || n % d == 0 {
        q
    } else {
        q - 1
    }
}

/// The product of two fixed-point numbers.
pub fn scale(a: i32, b: i32) -> (r: i64)
    ensures
        r as int == scaled(a as int, b as int),
{
    let wide_a: i128 = a as i128;
    let wide_b: i128 = b as i128;
    assert(-0x4000_0000_0000_0000 <= (a as int) * (b as int) <= 0x4000_0000_0000_0000)
        by (nonlinear_arith)
        requires
            -0x8000_0000 <= (a as int) < 0x8000_0000,
            -0x8000_0000 <= (b as int) < 0x8000_0000,
    ;
    let p: i128 = wide_a * wide_b;
    let q: i128 = floor_by_unit(p);
    q as i64
}

/// The product of three fixed-point numbers.
pub fn scale3(a: i32, b: i32, c: i32) -> (r: i64)
    ensures
        r as int == scaled3(a as int, b as int, c as int),
{
    let wide_a: i128 = a as i128;
    let wide_b: i128 = b as i128;
    let wide_c: i128 = c as i128;
    assert(-0x4000_0000_0000_0000 <= (a as int) * (b as int) <= 0x4000_0000_0000_0000)
        by (nonlinear_arith)
        requires
            -0x8000_0000 <= (a as int) < 0x8000_0000,
            -0x8000_0000 <= (b as int) < 0x8000_0000,
    ;
    let ab: i128 = wide_a * wide_b;
    assert(-0x2000_0000_0000_0000_0000_0000 <= (ab as int) * (c as int)
        <= 0x2000_0000_0000_0000_0000_0000) by (nonlinear_arith)
        requires
            -0x4000_0000_0000_0000 <= (ab as int) <= 0x4000_0000_0000_0000,
            -0x8000_0000 <= (c as int) < 0x8000_0000,
    ;
    let abc: i128 = ab * wide_c;
    let once: i128 = floor_by_unit(abc);
    let twice: i128 = floor_by_unit(once);
    proof {
        lemma_floor_twice(abc as int);
    }
    twice as i64
}

/// Dividing by one whole twice, rounding down each time, is dividing by the
/// square of one whole.
proof fn lemma_floor_twice(n: int)
    ensures
        (n / (UNIT as int)) / (UNIT as int) == n / (UNIT as int * UNIT as int),
        -0x2000_0000_0000_0000_0000_0000 <= n <= 0x2000_0000_0000_0000_0000_0000 ==> {
            &&& -0x8000_0000_0000_0000 <= n / (UNIT as int * UNIT as int)
            &&& n / (UNIT as int * UNIT as int) < 0x8000_0000_0000_0000
        },
{
    let q1 = n / 1_000_000;
    let q2 = q1 / 1_000_000;
    let r = (q1 % 1_000_000) * 1_000_000 + n % 1_000_000;
    assert(n == 1_000_000_000_000 * q2 + r);
    assert(0 <= r < 1_000_000_000_000);
    assert(n / 1_000_000_000_000 == q2);
    assert(UNIT as int * UNIT as int == 1_000_000_000_000) by (nonlinear_arith);
}

/// An 8-bit level is never outside `0..=255`, is darkest at and below zero
/// and brightest at and above one whole.
pub proof fn lemma_level_bounds(v: int)
    ensures
        0 <= level_of(v) <= 255,
        v <= 0 ==> level_of(v) == 0,
        v >= UNIT as int ==> level_of(v) == 255,
{
}

} // verus!
