//! Ray-sphere intersection: the quadratic discriminant test, exact in
//! widened integer arithmetic.

use vstd::prelude::*;
use crate::math::lemma_mul_bound;
use crate::vec::Vec3I;

verus! {

/// The coordinate range the intersection test accepts for positions.
pub const GEOM_POS_LIMIT: i64 = 1000000000;

/// The coordinate range the intersection test accepts for the ray
/// direction.
pub const GEOM_DIR_LIMIT: i64 = 1000000;

/// Whether a ray from `origin` along `direction` meets the sphere at
/// `center` with radius `radius`: the discriminant `b^2 - 4ac` of the
/// standard quadratic is nonnegative.
pub open spec fn ray_hits_sphere(origin: Vec3I, direction: Vec3I, center: Vec3I, radius: int)
    -> bool {
    let ocx = origin.x - center.x;
    let ocy = origin.y - center.y;
    let ocz = origin.z - center.z;
    let a = direction.norm2_spec();
    let b = 2 * (ocx * direction.x + ocy * direction.y + ocz * direction.z);
    let c = ocx * ocx + ocy * ocy + ocz * ocz - radius * radius;
    b * b - 4 * a * c >= 0
}

/// The shot resolution's discriminant test: a boolean hit, with no
/// distance along the ray.
pub fn ray_sphere_intersection(origin: Vec3I, direction: Vec3I, center: Vec3I, radius: i64) -> (r:
    bool)
    requires
        origin.bounded(GEOM_POS_LIMIT as int),
        center.bounded(GEOM_POS_LIMIT as int),
        direction.bounded(GEOM_DIR_LIMIT as int),
        0 <= radius <= GEOM_POS_LIMIT,
    ensures
        r == ray_hits_sphere(origin, direction, center, radius as int),
{
    let ocx: i64 = origin.x - center.x;
    let ocy: i64 = origin.y - center.y;
    let ocz: i64 = origin.z - center.z;
    proof {
        lemma_mul_bound(direction.x as int, direction.x as int, 1000000, 1000000);
        lemma_mul_bound(direction.y as int, direction.y as int, 1000000, 1000000);
        lemma_mul_bound(direction.z as int, direction.z as int, 1000000, 1000000);
        lemma_mul_bound(ocx as int, direction.x as int, 2000000000, 1000000);
        lemma_mul_bound(ocy as int, direction.y as int, 2000000000, 1000000);
        lemma_mul_bound(ocz as int, direction.z as int, 2000000000, 1000000);
        lemma_mul_bound(ocx as int, ocx as int, 2000000000, 2000000000);
        lemma_mul_bound(ocy as int, ocy as int, 2000000000, 2000000000);
        lemma_mul_bound(ocz as int, ocz as int, 2000000000, 2000000000);
        lemma_mul_bound(radius as int, radius as int, 1000000000, 1000000000);
    }
    let a: i128 = (direction.x as i128) * (direction.x as i128) + (direction.y as i128)
        * (direction.y as i128) + (direction.z as i128) * (direction.z as i128);
    let ocd: i128 = (ocx as i128) * (direction.x as i128) + (ocy as i128) * (direction.y as i128)
        + (ocz as i128) * (direction.z as i128);
    let b: i128 = 2 * ocd;
    let c: i128 = (ocx as i128) * (ocx as i128) + (ocy as i128) * (ocy as i128) + (ocz as i128)
        * (ocz as i128) - (radius as i128) * (radius as i128);
    proof {
        lemma_mul_bound(b as int, b as int, 20000000000000000, 20000000000000000);
        lemma_mul_bound(4 * a, c as int, 20000000000000, 20000000000000000000);
    }
    b * b - 4 * a * c >= 0
}

} // verus!
