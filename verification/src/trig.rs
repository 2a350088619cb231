//! Signed fixed-point cosine on [0, 180] degrees, cosine and sine of a
//! heading angle in [0, 360) degrees, and the velocity vector a heading
//! denotes, all built on the quarter-wave table.

use vstd::prelude::*;
use crate::math::{abs, tdiv, div_trunc, mul_wide};
use crate::trig_table::{cos_table_micro, cos_quarter_micro};
use crate::vec::Vec2I;

verus! {

/// The cosine of `d` degrees for `d` in `[0, 180]`, scaled by one million.
pub open spec fn cos_deg_micro(d: int) -> int {
    if d <= 90 {
        cos_table_micro(d)
    } else {
        -cos_table_micro(180 - d)
    }
}

/// The signed fixed-point cosine on `[0, 180]` degrees.
pub fn cos_deg(d: u64) -> (r: i64)
    requires
        d <= 180,
    ensures
        r == cos_deg_micro(d as int),
        abs(r as int) <= 1000000,
{
    if d <= 90 {
        cos_quarter_micro(d)
    } else {
        -cos_quarter_micro(180 - d)
    }
}

/// The cosine of a heading angle in `[0, 360)` degrees, scaled by one
/// million.
pub open spec fn cos_heading_micro(h: int) -> int {
    if h <= 180 {
        cos_deg_micro(h)
    } else {
        cos_deg_micro(360 - h)
    }
}

/// The sine of a heading angle in `[0, 360)` degrees, scaled by one
/// million: the cosine shifted by a quarter turn.
pub open spec fn sin_heading_micro(h: int) -> int {
    if h >= 90 {
        cos_heading_micro(h - 90)
    } else {
        cos_heading_micro(h + 270)
    }
}

/// The fixed-point cosine of a heading.
pub fn cos_heading(h: u64) -> (r: i64)
    requires
        h < 360,
    ensures
        r == cos_heading_micro(h as int),
        abs(r as int) <= 1000000,
{
    if h <= 180 {
        cos_deg(h)
    } else {
        cos_deg(360 - h)
    }
}

/// The fixed-point sine of a heading.
pub fn sin_heading(h: u64) -> (r: i64)
    requires
        h < 360,
    ensures
        r == sin_heading_micro(h as int),
        abs(r as int) <= 1000000,
{
    if h >= 90 {
        cos_heading(h - 90)
    } else {
        cos_heading(h + 270)
    }
}

/// The planar velocity that a heading denotes: `speed` milliunits per
/// second along the unit direction `(cos h, sin h)`, each coordinate
/// rounded toward zero.
pub open spec fn heading_velocity_spec(h: int, speed: int) -> Vec2I {
    Vec2I {
        x: tdiv(speed * cos_heading_micro(h), 1000000) as i64,
        y: tdiv(speed * sin_heading_micro(h), 1000000) as i64,
    }
}

/// Rounding toward zero never enlarges a quotient's magnitude: if the
/// numerator is at most `bound` times the divisor, the quotient is at
/// most `bound`.
pub proof fn lemma_tdiv_bound(a: int, b: int, bound: int)
    by (nonlinear_arith)
    requires
        b > 0,
        bound >= 0,
        abs(a) <= bound * b,
    ensures
        abs(tdiv(a, b)) <= bound,
        a >= 0 ==> tdiv(a, b) >= 0,
        a <= 0 ==> tdiv(a, b) <= 0,
{
}

/// The executable velocity of a heading.
pub fn heading_velocity(h: u64, speed: i64) -> (r: Vec2I)
    requires
        h < 360,
        0 <= speed <= 1000000000,
    ensures
        r == heading_velocity_spec(h as int, speed as int),
        r.bounded(speed as int),
{
    let c = cos_heading(h);
    let s = sin_heading(h);
    let xw: i128 = mul_wide(speed, c);
    let yw: i128 = mul_wide(speed, s);
    proof {
        crate::math::lemma_mul_bound(speed as int, c as int, speed as int, 1000000);
        crate::math::lemma_mul_bound(speed as int, s as int, speed as int, 1000000);
        lemma_tdiv_bound(speed * c, 1000000, speed as int);
        lemma_tdiv_bound(speed * s, 1000000, speed as int);
    }
    let x = div_trunc((xw as i64), 1000000);
    let y = div_trunc((yw as i64), 1000000);
    Vec2I { x, y }
}

} // verus!
