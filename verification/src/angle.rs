//! The angle in whole degrees between two direction vectors, computed
//! without square roots: a direction pair is compared against each table
//! cosine by cross-multiplied squares, which is exact in fixed point.
//!
//! Vectors are first scaled down by halvings into a range where every
//! product fits; only the direction matters for an angle, and a ratio that
//! would fall outside [-1, 1] by rounding lands on 0 or 180 degrees, the
//! same clamping the real-valued formula applies.

use vstd::prelude::*;
use crate::math::{abs, tdiv, div_trunc, lemma_mul_bound};
use crate::trig::cos_deg_micro;
use crate::trig::cos_deg;
use crate::vec::{Vec2I, Vec3I};

verus! {

/// The coordinate range that the angle comparison accepts.
pub const ANGLE_COORD_LIMIT: i64 = 1000000;

/// The squared-norm range that the angle comparison accepts.
pub const ANGLE_NORM2_LIMIT: i128 = 3000000000000;

/// Both coordinates halved, rounding toward zero.
pub open spec fn half2(v: Vec2I) -> Vec2I {
    Vec2I { x: tdiv(v.x as int, 2) as i64, y: tdiv(v.y as int, 2) as i64 }
}

/// All three coordinates halved, rounding toward zero.
pub open spec fn half3(v: Vec3I) -> Vec3I {
    Vec3I {
        x: tdiv(v.x as int, 2) as i64,
        y: tdiv(v.y as int, 2) as i64,
        z: tdiv(v.z as int, 2) as i64,
    }
}

/// The vector halved until both coordinates are within the angle range.
pub open spec fn scale2_spec(v: Vec2I) -> Vec2I
    decreases abs(v.x as int) + abs(v.y as int),
{
    if v.bounded(ANGLE_COORD_LIMIT as int) {
        v
    } else {
        scale2_spec(half2(v))
    }
}

/// The vector halved until all coordinates are within the angle range.
pub open spec fn scale3_spec(v: Vec3I) -> Vec3I
    decreases abs(v.x as int) + abs(v.y as int) + abs(v.z as int),
{
    if v.bounded(ANGLE_COORD_LIMIT as int) {
        v
    } else {
        scale3_spec(half3(v))
    }
}

/// Whether the table cosine of `d` degrees is at most the cosine of the
/// angle between two directions whose dot product is `dot` and whose
/// squared norms are `m2a` and `m2b`: the comparison
/// `cos(d) <= dot / sqrt(m2a * m2b)` with both sides squared, split by
/// sign so that squaring is faithful.
pub open spec fn cos_le_ratio(d: int, dot: int, m2a: int, m2b: int) -> bool {
    let c = cos_deg_micro(d);
    if c <= 0 && dot >= 0 {
        true
    } else if c > 0 && dot < 0 {
        false
    } else if c > 0 {
        c * c * m2a * m2b <= dot * dot * 1000000000000
    } else {
        c * c * m2a * m2b >= dot * dot * 1000000000000
    }
}

/// The first degree `d` at or above `from` whose table cosine is at most
/// the direction pair's cosine; 180 if none is.
pub open spec fn angle_scan(from: int, dot: int, m2a: int, m2b: int) -> int
    decreases 181 - from,
{
    if from >= 180 {
        180
    } else if cos_le_ratio(from, dot, m2a, m2b) {
        from
    } else {
        angle_scan(from + 1, dot, m2a, m2b)
    }
}

/// The angle in whole degrees between directions with dot product `dot`
/// and squared norms `m2a`, `m2b`: the first degree whose table cosine
/// is at most the pair's cosine, which rounds the true angle up to the
/// table grid.
pub open spec fn angle_deg_from(dot: int, m2a: int, m2b: int) -> int {
    angle_scan(0, dot, m2a, m2b)
}

/// One fixed-point cosine comparison, exactly as the specification states
/// it.
fn cos_le_ratio_exec(d: u64, dot: i128, m2a: i128, m2b: i128) -> (r: bool)
    requires
        d <= 180,
        0 <= m2a <= ANGLE_NORM2_LIMIT,
        0 <= m2b <= ANGLE_NORM2_LIMIT,
        abs(dot as int) <= ANGLE_NORM2_LIMIT,
    ensures
        r == cos_le_ratio(d as int, dot as int, m2a as int, m2b as int),
{
    let c: i64 = cos_deg(d);
    if c <= 0 && dot >= 0 {
        true
    } else if c > 0 && dot < 0 {
        false
    } else {
        proof {
            lemma_mul_bound(c as int, c as int, 1000000, 1000000);
            lemma_mul_bound(c * c, m2a as int, 1000000000000, ANGLE_NORM2_LIMIT as int);
            lemma_mul_bound(
                c * c * m2a,
                m2b as int,
                1000000000000 * ANGLE_NORM2_LIMIT,
                ANGLE_NORM2_LIMIT as int,
            );
            lemma_mul_bound(dot as int, dot as int, ANGLE_NORM2_LIMIT as int, ANGLE_NORM2_LIMIT as int);
            lemma_mul_bound(
                dot * dot,
                1000000000000,
                ANGLE_NORM2_LIMIT * ANGLE_NORM2_LIMIT,
                1000000000000,
            );
        }
        let lhs: i128 = (c as i128) * (c as i128) * m2a * m2b;
        let rhs: i128 = dot * dot * 1000000000000;
        if c > 0 {
            lhs <= rhs
        } else {
            lhs >= rhs
        }
    }
}

/// The angle in whole degrees between two directions given by their dot
/// product and squared norms.
pub fn angle_deg(dot: i128, m2a: i128, m2b: i128) -> (r: u64)
    requires
        0 <= m2a <= ANGLE_NORM2_LIMIT,
        0 <= m2b <= ANGLE_NORM2_LIMIT,
        abs(dot as int) <= ANGLE_NORM2_LIMIT,
    ensures
        r == angle_deg_from(dot as int, m2a as int, m2b as int),
        r <= 180,
{
    let mut d: u64 = 0;
    while d < 180
        invariant
            d <= 180,
            0 <= m2a <= ANGLE_NORM2_LIMIT,
            0 <= m2b <= ANGLE_NORM2_LIMIT,
            abs(dot as int) <= ANGLE_NORM2_LIMIT,
            angle_scan(0, dot as int, m2a as int, m2b as int) == angle_scan(
                d as int,
                dot as int,
                m2a as int,
                m2b as int,
            ),
        decreases 180 - d,
    {
        if cos_le_ratio_exec(d, dot, m2a, m2b) {
            return d;
        }
        d = d + 1;
    }
    180
}

/// The vector halved until both coordinates are within the angle range.
pub fn scale2(v: Vec2I) -> (r: Vec2I)
    requires
        v.x > i64::MIN,
        v.y > i64::MIN,
    ensures
        r == scale2_spec(v),
        r.bounded(ANGLE_COORD_LIMIT as int),
{
    let mut w = v;
    while w.x > ANGLE_COORD_LIMIT || w.x < -ANGLE_COORD_LIMIT || w.y > ANGLE_COORD_LIMIT
        || w.y < -ANGLE_COORD_LIMIT
        invariant
            w.x > i64::MIN,
            w.y > i64::MIN,
            scale2_spec(w) == scale2_spec(v),
        decreases abs(w.x as int) + abs(w.y as int),
    {
        w = Vec2I { x: div_trunc(w.x, 2), y: div_trunc(w.y, 2) };
    }
    w
}

/// The vector halved until all coordinates are within the angle range.
pub fn scale3(v: Vec3I) -> (r: Vec3I)
    requires
        v.x > i64::MIN,
        v.y > i64::MIN,
        v.z > i64::MIN,
    ensures
        r == scale3_spec(v),
        r.bounded(ANGLE_COORD_LIMIT as int),
    {
    let mut w = v;
    while w.x > ANGLE_COORD_LIMIT || w.x < -ANGLE_COORD_LIMIT || w.y > ANGLE_COORD_LIMIT
        || w.y < -ANGLE_COORD_LIMIT || w.z > ANGLE_COORD_LIMIT || w.z < -ANGLE_COORD_LIMIT
        invariant
            w.x > i64::MIN,
            w.y > i64::MIN,
            w.z > i64::MIN,
            scale3_spec(w) == scale3_spec(v),
        decreases abs(w.x as int) + abs(w.y as int) + abs(w.z as int),
    {
        w = Vec3I { x: div_trunc(w.x, 2), y: div_trunc(w.y, 2), z: div_trunc(w.z, 2) };
    }
    w
}

/// The angle in whole degrees between two planar vectors; zero when either
/// scales down to the zero vector ("no reliable signal" rather than a
/// division fault, as for a degenerate normalize).
pub open spec fn angle2_spec(a: Vec2I, b: Vec2I) -> int {
    let sa = scale2_spec(a);
    let sb = scale2_spec(b);
    if sa.norm2_spec() == 0 || sb.norm2_spec() == 0 {
        0
    } else {
        angle_deg_from(sa.dot_spec(sb), sa.norm2_spec(), sb.norm2_spec())
    }
}

/// The angle in whole degrees between two spatial vectors; zero when
/// either scales down to the zero vector.
pub open spec fn angle3_spec(a: Vec3I, b: Vec3I) -> int {
    let sa = scale3_spec(a);
    let sb = scale3_spec(b);
    if sa.norm2_spec() == 0 || sb.norm2_spec() == 0 {
        0
    } else {
        angle_deg_from(sa.dot_spec(sb), sa.norm2_spec(), sb.norm2_spec())
    }
}

/// The angle in whole degrees between two planar vectors.
pub fn angle_between_2d(a: Vec2I, b: Vec2I) -> (r: u64)
    requires
        a.x > i64::MIN,
        a.y > i64::MIN,
        b.x > i64::MIN,
        b.y > i64::MIN,
    ensures
        r == angle2_spec(a, b),
        r <= 180,
{
    let sa = scale2(a);
    let sb = scale2(b);
    let m2a = sa.norm2();
    let m2b = sb.norm2();
    if m2a == 0 || m2b == 0 {
        return 0;
    }
    let dot = sa.dot(sb);
    proof {
        lemma_mul_bound(sa.x as int, sb.x as int, 1000000, 1000000);
        lemma_mul_bound(sa.y as int, sb.y as int, 1000000, 1000000);
        lemma_mul_bound(sa.x as int, sa.x as int, 1000000, 1000000);
        lemma_mul_bound(sa.y as int, sa.y as int, 1000000, 1000000);
        lemma_mul_bound(sb.x as int, sb.x as int, 1000000, 1000000);
        lemma_mul_bound(sb.y as int, sb.y as int, 1000000, 1000000);
    }
    angle_deg(dot, m2a, m2b)
}

/// The angle in whole degrees between two spatial vectors.
pub fn angle_between_3d(a: Vec3I, b: Vec3I) -> (r: u64)
    requires
        a.x > i64::MIN,
        a.y > i64::MIN,
        a.z > i64::MIN,
        b.x > i64::MIN,
        b.y > i64::MIN,
        b.z > i64::MIN,
    ensures
        r == angle3_spec(a, b),
        r <= 180,
{
    let sa = scale3(a);
    let sb = scale3(b);
    let m2a = sa.norm2();
    let m2b = sb.norm2();
    if m2a == 0 || m2b == 0 {
        return 0;
    }
    let dot = sa.dot(sb);
    proof {
        lemma_mul_bound(sa.x as int, sb.x as int, 1000000, 1000000);
        lemma_mul_bound(sa.y as int, sb.y as int, 1000000, 1000000);
        lemma_mul_bound(sa.z as int, sb.z as int, 1000000, 1000000);
        lemma_mul_bound(sa.x as int, sa.x as int, 1000000, 1000000);
        lemma_mul_bound(sa.y as int, sa.y as int, 1000000, 1000000);
        lemma_mul_bound(sa.z as int, sa.z as int, 1000000, 1000000);
        lemma_mul_bound(sb.x as int, sb.x as int, 1000000, 1000000);
        lemma_mul_bound(sb.y as int, sb.y as int, 1000000, 1000000);
        lemma_mul_bound(sb.z as int, sb.z as int, 1000000, 1000000);
    }
    angle_deg(dot, m2a, m2b)
}

} // verus!
