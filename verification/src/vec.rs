//! Fixed-point 2-D and 3-D integer vectors. Coordinates are milliunits:
//! one world unit is 1000, so a unit-length direction has norm close to 1000.

use vstd::prelude::*;
use crate::math::{abs, lemma_mul_bound, mul_wide};

verus! {

/// A 2-D vector in fixed-point (milliunit) coordinates.
#[derive(Clone, Copy, PartialEq, Eq, Structural, Debug)]
pub struct Vec2I {
    pub x: i64,
    pub y: i64,
}

/// A 3-D vector in fixed-point (milliunit) coordinates.
#[derive(Clone, Copy, PartialEq, Eq, Structural, Debug)]
pub struct Vec3I {
    pub x: i64,
    pub y: i64,
    pub z: i64,
}

impl Vec2I {
    /// Both coordinates are at most `b` in magnitude.
    pub open spec fn bounded(self, b: int) -> bool {
        abs(self.x as int) <= b && abs(self.y as int) <= b
    }

    /// The mathematical dot product.
    pub open spec fn dot_spec(self, o: Vec2I) -> int {
        self.x * o.x + self.y * o.y
    }

    /// The squared Euclidean norm.
    pub open spec fn norm2_spec(self) -> int {
        self.dot_spec(self)
    }

    pub open spec fn is_zero(self) -> bool {
        self.x == 0 && self.y == 0
    }

    pub fn new(x: i64, y: i64) -> (r: Vec2I)
        ensures
            r == (Vec2I { x, y }),
    {
        Vec2I { x, y }
    }

    pub fn zero() -> (r: Vec2I)
        ensures
            r == (Vec2I { x: 0i64, y: 0i64 }),
    {
        Vec2I { x: 0, y: 0 }
    }

    /// The dot product, widened so it cannot overflow.
    pub fn dot(self, o: Vec2I) -> (r: i128)
        requires
            self.bounded(0x4000_0000_0000_0000),
            o.bounded(0x4000_0000_0000_0000),
        ensures
            r == self.dot_spec(o),
    {
        proof {
            lemma_mul_bound(self.x as int, o.x as int, 0x4000_0000_0000_0000, 0x4000_0000_0000_0000);
            lemma_mul_bound(self.y as int, o.y as int, 0x4000_0000_0000_0000, 0x4000_0000_0000_0000);
        }
        mul_wide(self.x, o.x) + mul_wide(self.y, o.y)
    }

    /// The squared norm, widened so it cannot overflow.
    pub fn norm2(self) -> (r: i128)
        requires
            self.bounded(0x4000_0000_0000_0000),
        ensures
            r == self.norm2_spec(),
            r >= 0,
    {
        proof {
            lemma_square_nonneg(self.x as int);
            lemma_square_nonneg(self.y as int);
        }
        self.dot(self)
    }
}

impl Vec3I {
    /// All three coordinates are at most `b` in magnitude.
    pub open spec fn bounded(self, b: int) -> bool {
        abs(self.x as int) <= b && abs(self.y as int) <= b && abs(self.z as int) <= b
    }

    /// The mathematical dot product.
    pub open spec fn dot_spec(self, o: Vec3I) -> int {
        self.x * o.x + self.y * o.y + self.z * o.z
    }

    /// The squared Euclidean norm.
    pub open spec fn norm2_spec(self) -> int {
        self.dot_spec(self)
    }

    pub open spec fn is_zero(self) -> bool {
        self.x == 0 && self.y == 0 && self.z == 0
    }

    pub fn new(x: i64, y: i64, z: i64) -> (r: Vec3I)
        ensures
            r == (Vec3I { x, y, z }),
    {
        Vec3I { x, y, z }
    }

    pub fn zero() -> (r: Vec3I)
        ensures
            r == (Vec3I { x: 0i64, y: 0i64, z: 0i64 }),
    {
        Vec3I { x: 0, y: 0, z: 0 }
    }

    /// The dot product, widened so it cannot overflow.
    pub fn dot(self, o: Vec3I) -> (r: i128)
        requires
            self.bounded(0x4000_0000_0000_0000),
            o.bounded(0x4000_0000_0000_0000),
        ensures
            r == self.dot_spec(o),
    {
        proof {
            lemma_mul_bound(self.x as int, o.x as int, 0x4000_0000_0000_0000, 0x4000_0000_0000_0000);
            lemma_mul_bound(self.y as int, o.y as int, 0x4000_0000_0000_0000, 0x4000_0000_0000_0000);
            lemma_mul_bound(self.z as int, o.z as int, 0x4000_0000_0000_0000, 0x4000_0000_0000_0000);
        }
        mul_wide(self.x, o.x) + mul_wide(self.y, o.y) + mul_wide(self.z, o.z)
    }

    /// The squared norm, widened so it cannot overflow.
    pub fn norm2(self) -> (r: i128)
        requires
            self.bounded(0x4000_0000_0000_0000),
        ensures
            r == self.norm2_spec(),
            r >= 0,
    {
        proof {
            lemma_square_nonneg(self.x as int);
            lemma_square_nonneg(self.y as int);
            lemma_square_nonneg(self.z as int);
        }
        self.dot(self)
    }
}

/// A square is never negative.
pub proof fn lemma_square_nonneg(a: int)
    by (nonlinear_arith)
    ensures
        a * a >= 0,
{
}

} // verus!
