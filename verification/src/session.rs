//! The trial session: a timed run that moves the target inside a bounded
//! local volume with randomized, constrained direction changes, fires
//! synthetic shots at a fixed cadence, and records one sample per tick.
//!
//! The boundary volume lives in the camera frame frozen at trial start:
//! a basis of right, up and forward vectors at milliunit scale, with the
//! origin at the camera position recorded then. The target's local
//! coordinates are the authoritative state, so the boundary clamp is
//! exact; the world position is derived from them.

use vstd::prelude::*;
use crate::math::{abs, tdiv, div_trunc, mul_wide};
use crate::trig::lemma_tdiv_bound;
use crate::vec::Vec3I;
use crate::sample::{DataPoint, valid_series, SAMPLE_TIME_LIMIT};
use crate::trig::{heading_velocity_spec, heading_velocity};
use crate::geom::ray_hits_sphere;

verus! {

/// The trial length (microseconds).
pub const TEST_DURATION_US: i64 = 20000000;

/// The target's speed when a fresh heading is assigned (milliunits per
/// second).
pub const TARGET_SPEED_MILLI: i64 = 7000;

/// The target sphere's radius (milliunits).
pub const TARGET_SIZE_MILLI: i64 = 500;

/// The local bounding volume (milliunits).
pub const TARGET_BOUND_X_MILLI: i64 = 6000;

pub const TARGET_BOUND_Y_MILLI: i64 = 4000;

pub const TARGET_BOUND_Z_MIN_MILLI: i64 = 8000;

pub const TARGET_BOUND_Z_MAX_MILLI: i64 = 16000;

/// The synthetic fire cadence (microseconds; thirty shots per second).
pub const SHOT_INTERVAL_US: i64 = 33333;

/// The velocity range the session keeps: a fresh heading gives the fixed
/// speed, and one boundary reflection cannot push a coordinate past
/// this.
pub const SESSION_VEL_LIMIT: i64 = 50000;

/// The coordinate range of basis vectors, positions and directions the
/// session accepts from the host (milliunits).
pub const SESSION_DIR_LIMIT: i64 = 2000;

/// The world-position range the session accepts from the host
/// (milliunits).
pub const SESSION_POS_LIMIT: i64 = 500000000;

/// The longest single tick the session accepts (microseconds).
pub const MAX_TICK_DT_US: i64 = 1000000;

/// A local position inside the bounding volume.
pub open spec fn in_bounds(p: Vec3I) -> bool {
    &&& -TARGET_BOUND_X_MILLI <= p.x <= TARGET_BOUND_X_MILLI
    &&& -TARGET_BOUND_Y_MILLI <= p.y <= TARGET_BOUND_Y_MILLI
    &&& TARGET_BOUND_Z_MIN_MILLI <= p.z <= TARGET_BOUND_Z_MAX_MILLI
}

/// One timed trial: lifecycle flags, the frozen camera frame, the
/// target's local position and velocity, shot bookkeeping, the recorded
/// series, and the statistics the analysis fills in after completion.
pub struct ReactionTest {
    pub data: Vec<DataPoint>,
    pub is_running: bool,
    pub test_completed: bool,
    pub start_time_us: i64,
    pub target_local: Vec3I,
    pub target_velocity: Vec3I,
    pub target_heading_deg: u64,
    pub crosshair_direction: Vec3I,
    pub target_distance_milli: i64,
    pub camera_origin: Vec3I,
    pub basis_right: Vec3I,
    pub basis_up: Vec3I,
    pub basis_forward: Vec3I,
    pub next_direction_change_us: i64,
    pub change_interval_us: i64,
    pub last_direction_change_time_us: i64,
    pub hits: u32,
    pub misses: u32,
    pub last_shot_time_us: i64,
    pub shot_interval_us: i64,
    pub count_directions: usize,
    pub react_directions: usize,
    pub average_delay_us: i64,
    pub median_delay_us: i64,
    pub rms_distance_deg: u64,
    pub peak_angular_error_deg: u64,
}

impl ReactionTest {
    /// The session's well-formedness: a valid recorded series, the two
    /// phase flags never both set, the target inside its volume, and
    /// every vector within the session's fixed-point ranges.
    pub open spec fn inv(self) -> bool {
        &&& valid_series(self.data@)
        &&& !(self.is_running && self.test_completed)
        &&& in_bounds(self.target_local)
        &&& self.target_velocity.bounded(SESSION_VEL_LIMIT as int)
        &&& self.target_heading_deg < 360
        &&& self.crosshair_direction.bounded(SESSION_DIR_LIMIT as int)
        &&& self.camera_origin.bounded(SESSION_POS_LIMIT as int)
        &&& self.basis_right.bounded(SESSION_DIR_LIMIT as int)
        &&& self.basis_up.bounded(SESSION_DIR_LIMIT as int)
        &&& self.basis_forward.bounded(SESSION_DIR_LIMIT as int)
        &&& 0 <= self.start_time_us
        &&& 0 <= self.last_shot_time_us <= SAMPLE_TIME_LIMIT
        &&& 0 <= self.next_direction_change_us <= SAMPLE_TIME_LIMIT + SAMPLE_TIME_LIMIT
        &&& 0 < self.change_interval_us <= SAMPLE_TIME_LIMIT
        &&& 0 <= self.last_direction_change_time_us <= SAMPLE_TIME_LIMIT
        &&& 0 < self.shot_interval_us <= SAMPLE_TIME_LIMIT
        &&& 0 < self.target_distance_milli <= 100000
        &&& forall|i: int|
            0 <= i < self.data@.len() ==> (#[trigger] self.data@[i]).time_us
                <= SAMPLE_TIME_LIMIT - MAX_TICK_DT_US
    }

    /// The target's world position: the frozen origin plus the local
    /// coordinates carried along the frozen basis.
    pub open spec fn target_world_spec(self) -> Vec3I {
        basis_combine_spec(
            self.camera_origin,
            self.basis_right,
            self.basis_up,
            self.basis_forward,
            self.target_local,
        )
    }
}

/// `origin + (right * l.x + up * l.y + forward * l.z) / 1000`, each
/// coordinate rounded toward zero: local coordinates carried back to
/// world space.
pub open spec fn basis_combine_spec(origin: Vec3I, right: Vec3I, up: Vec3I, forward: Vec3I, l:
    Vec3I) -> Vec3I {
    Vec3I {
        x: (origin.x + tdiv(right.x * l.x + up.x * l.y + forward.x * l.z, 1000)) as i64,
        y: (origin.y + tdiv(right.y * l.x + up.y * l.y + forward.y * l.z, 1000)) as i64,
        z: (origin.z + tdiv(right.z * l.x + up.z * l.y + forward.z * l.z, 1000)) as i64,
    }
}

/// The executable world-position reconstruction.
pub fn basis_combine(origin: Vec3I, right: Vec3I, up: Vec3I, forward: Vec3I, l: Vec3I) -> (r:
    Vec3I)
    requires
        origin.bounded(SESSION_POS_LIMIT as int),
        right.bounded(SESSION_DIR_LIMIT as int),
        up.bounded(SESSION_DIR_LIMIT as int),
        forward.bounded(SESSION_DIR_LIMIT as int),
        l.bounded(SESSION_VEL_LIMIT as int),
    ensures
        r == basis_combine_spec(origin, right, up, forward, l),
        r.bounded(SESSION_POS_LIMIT + 300000),
{
    let xs = combine_coord(origin.x, right.x, up.x, forward.x, l);
    let ys = combine_coord(origin.y, right.y, up.y, forward.y, l);
    let zs = combine_coord(origin.z, right.z, up.z, forward.z, l);
    Vec3I { x: xs, y: ys, z: zs }
}

/// One coordinate of the world-position reconstruction.
fn combine_coord(o: i64, r: i64, u: i64, f: i64, l: Vec3I) -> (res: i64)
    requires
        abs(o as int) <= SESSION_POS_LIMIT,
        abs(r as int) <= SESSION_DIR_LIMIT,
        abs(u as int) <= SESSION_DIR_LIMIT,
        abs(f as int) <= SESSION_DIR_LIMIT,
        l.bounded(SESSION_VEL_LIMIT as int),
    ensures
        res == o + tdiv(r * l.x + u * l.y + f * l.z, 1000),
        abs(res as int) <= SESSION_POS_LIMIT + 300000,
{
    proof {
        crate::math::lemma_mul_bound(r as int, l.x as int, SESSION_DIR_LIMIT as int, SESSION_VEL_LIMIT as int);
        crate::math::lemma_mul_bound(u as int, l.y as int, SESSION_DIR_LIMIT as int, SESSION_VEL_LIMIT as int);
        crate::math::lemma_mul_bound(f as int, l.z as int, SESSION_DIR_LIMIT as int, SESSION_VEL_LIMIT as int);
        lemma_tdiv_bound(
            (r * l.x + u * l.y + f * l.z) as int,
            1000,
            300000,
        );
    }
    let s: i64 = (mul_wide(r, l.x) + mul_wide(u, l.y) + mul_wide(f, l.z)) as i64;
    o + div_trunc(s, 1000)
}

/// The crosshair's local right/up projection: each basis dot product
/// scaled back down by the basis scale.
pub open spec fn project_dir_spec(basis: Vec3I, d: Vec3I) -> int {
    tdiv(basis.x * d.x + basis.y * d.y + basis.z * d.z, 1000)
}

/// A local projection of in-range vectors stays within the projection
/// range.
pub proof fn lemma_project_dir_bounded(basis: Vec3I, d: Vec3I)
    requires
        basis.bounded(SESSION_DIR_LIMIT as int),
        d.bounded(SESSION_DIR_LIMIT as int),
    ensures
        abs(project_dir_spec(basis, d)) <= 12000,
{
    crate::math::lemma_mul_bound(basis.x as int, d.x as int, SESSION_DIR_LIMIT as int, SESSION_DIR_LIMIT as int);
    crate::math::lemma_mul_bound(basis.y as int, d.y as int, SESSION_DIR_LIMIT as int, SESSION_DIR_LIMIT as int);
    crate::math::lemma_mul_bound(basis.z as int, d.z as int, SESSION_DIR_LIMIT as int, SESSION_DIR_LIMIT as int);
    lemma_tdiv_bound(basis.x * d.x + basis.y * d.y + basis.z * d.z, 1000, 12000);
}

/// One local projection coordinate of a direction.
pub fn project_dir(basis: Vec3I, d: Vec3I) -> (r: i64)
    requires
        basis.bounded(SESSION_DIR_LIMIT as int),
        d.bounded(SESSION_DIR_LIMIT as int),
    ensures
        r == project_dir_spec(basis, d),
        abs(r as int) <= 12000,
{
    proof {
        crate::math::lemma_mul_bound(basis.x as int, d.x as int, SESSION_DIR_LIMIT as int, SESSION_DIR_LIMIT as int);
        crate::math::lemma_mul_bound(basis.y as int, d.y as int, SESSION_DIR_LIMIT as int, SESSION_DIR_LIMIT as int);
        crate::math::lemma_mul_bound(basis.z as int, d.z as int, SESSION_DIR_LIMIT as int, SESSION_DIR_LIMIT as int);
        lemma_tdiv_bound(
            (basis.x * d.x + basis.y * d.y + basis.z * d.z) as int,
            1000,
            12000,
        );
    }
    let s: i64 = (mul_wide(basis.x, d.x) + mul_wide(basis.y, d.y) + mul_wide(basis.z, d.z))
        as i64;
    div_trunc(s, 1000)
}

impl Default for ReactionTest {
    /// An idle session: no samples, default heading diagonal, the target
    /// straight ahead at the fixed distance, an axis-aligned frozen
    /// frame.
    fn default() -> (r: ReactionTest)
        ensures
            r.inv(),
            !r.is_running,
            !r.test_completed,
            r.data@.len() == 0,
            r.start_time_us == 0,
            r.target_local == (Vec3I { x: 0i64, y: 0i64, z: 15000i64 }),
            r.target_velocity == (Vec3I { x: 4041i64, y: 4041i64, z: -4041i64 }),
            r.target_heading_deg == 45,
            r.crosshair_direction == (Vec3I { x: 0i64, y: 0i64, z: -1000i64 }),
            r.target_distance_milli == 15000,
            r.camera_origin == (Vec3I { x: 0i64, y: 0i64, z: 0i64 }),
            r.basis_right == (Vec3I { x: 1000i64, y: 0i64, z: 0i64 }),
            r.basis_up == (Vec3I { x: 0i64, y: 1000i64, z: 0i64 }),
            r.basis_forward == (Vec3I { x: 0i64, y: 0i64, z: -1000i64 }),
            r.next_direction_change_us == 100000,
            r.change_interval_us == 100000,
            r.last_direction_change_time_us == 0,
            r.hits == 0,
            r.misses == 0,
            r.last_shot_time_us == 0,
            r.shot_interval_us == SHOT_INTERVAL_US,
            r.count_directions == 0,
            r.react_directions == 0,
            r.average_delay_us == 0,
            r.median_delay_us == 0,
            r.rms_distance_deg == 0,
            r.peak_angular_error_deg == 0,
    {
        ReactionTest {
            data: Vec::new(),
            is_running: false,
            test_completed: false,
            start_time_us: 0,
            target_local: Vec3I { x: 0, y: 0, z: 15000 },
            target_velocity: Vec3I { x: 4041, y: 4041, z: -4041 },
            target_heading_deg: 45,
            crosshair_direction: Vec3I { x: 0, y: 0, z: -1000 },
            target_distance_milli: 15000,
            camera_origin: Vec3I { x: 0, y: 0, z: 0 },
            basis_right: Vec3I { x: 1000, y: 0, z: 0 },
            basis_up: Vec3I { x: 0, y: 1000, z: 0 },
            basis_forward: Vec3I { x: 0, y: 0, z: -1000 },
            next_direction_change_us: 100000,
            change_interval_us: 100000,
            last_direction_change_time_us: 0,
            hits: 0,
            misses: 0,
            last_shot_time_us: 0,
            shot_interval_us: SHOT_INTERVAL_US,
            count_directions: 0,
            react_directions: 0,
            average_delay_us: 0,
            median_delay_us: 0,
            rms_distance_deg: 0,
            peak_angular_error_deg: 0,
        }
    }
}

/// Freeze the camera frame for the trial: the origin and an orthonormal
/// basis at milliunit scale, as the host computed them at trial start.
pub fn set_camera_pose(test: &mut ReactionTest, origin: Vec3I, right: Vec3I, up: Vec3I, forward:
    Vec3I)
    requires
        old(test).inv(),
        origin.bounded(SESSION_POS_LIMIT as int),
        right.bounded(SESSION_DIR_LIMIT as int),
        up.bounded(SESSION_DIR_LIMIT as int),
        forward.bounded(SESSION_DIR_LIMIT as int),
    ensures
        final(test).inv(),
        *final(test) == (ReactionTest {
            camera_origin: origin,
            basis_right: right,
            basis_up: up,
            basis_forward: forward,
            ..*old(test)
        }),
{
    test.camera_origin = origin;
    test.basis_right = right;
    test.basis_up = up;
    test.basis_forward = forward;
}

/// Begin a trial at clock time `now_us`: clear the series, zero the hit
/// and miss counters and the shot clock, put the target straight ahead
/// at the fixed distance, give it the fixed initial velocity, aim the
/// crosshair along the forward axis, and schedule the first direction
/// change a tenth of a second in.
pub fn start_test(test: &mut ReactionTest, now_us: i64)
    requires
        old(test).inv(),
        0 <= now_us <= SAMPLE_TIME_LIMIT,
    ensures
        final(test).inv(),
        final(test).is_running,
        !final(test).test_completed,
        final(test).start_time_us == now_us,
        final(test).data@.len() == 0,
        final(test).hits == 0,
        final(test).misses == 0,
        final(test).last_shot_time_us == 0,
        final(test).target_local == (Vec3I { x: 0i64, y: 0i64, z: 15000i64 }),
        final(test).crosshair_direction == (Vec3I { x: 0i64, y: 0i64, z: -1000i64 }),
        final(test).target_velocity == (Vec3I { x: 5715i64, y: 2857i64, z: -2857i64 }),
        final(test).next_direction_change_us == 100000,
        final(test).camera_origin == old(test).camera_origin,
        final(test).basis_right == old(test).basis_right,
        final(test).basis_up == old(test).basis_up,
        final(test).basis_forward == old(test).basis_forward,
{
    test.is_running = true;
    test.test_completed = false;
    test.start_time_us = now_us;
    test.data = Vec::new();
    test.hits = 0;
    test.misses = 0;
    test.last_shot_time_us = 0;
    test.crosshair_direction = Vec3I { x: 0, y: 0, z: -1000 };
    test.target_local = Vec3I { x: 0, y: 0, z: 15000 };
    test.target_velocity = Vec3I { x: 5715, y: 2857, z: -2857 };
    test.target_heading_deg = 26;
    test.next_direction_change_us = 100000;
}

/// Force the session back to idle: clear the series and every counter,
/// restore the default velocity heading. Always safe.
pub fn reset_test(test: &mut ReactionTest)
    requires
        old(test).inv(),
    ensures
        final(test).inv(),
        !final(test).is_running,
        !final(test).test_completed,
        final(test).data@.len() == 0,
        final(test).hits == 0,
        final(test).misses == 0,
        final(test).start_time_us == 0,
        final(test).last_shot_time_us == 0,
        final(test).crosshair_direction == (Vec3I { x: 0i64, y: 0i64, z: -1000i64 }),
        final(test).target_local == (Vec3I { x: 0i64, y: 0i64, z: 15000i64 }),
        final(test).target_heading_deg == 26,
        final(test).target_velocity == (Vec3I { x: 5715i64, y: 2857i64, z: -2857i64 }),
        final(test).next_direction_change_us == 100000,
        final(test).change_interval_us == 100000,
{
    test.is_running = false;
    test.test_completed = false;
    test.start_time_us = 0;
    test.hits = 0;
    test.misses = 0;
    test.last_shot_time_us = 0;
    test.data = Vec::new();
    test.crosshair_direction = Vec3I { x: 0, y: 0, z: -1000 };
    test.target_local = Vec3I { x: 0, y: 0, z: 15000 };
    test.target_velocity = Vec3I { x: 5715, y: 2857, z: -2857 };
    test.target_heading_deg = 26;
    test.next_direction_change_us = 100000;
    test.change_interval_us = 100000;
}


/// Twice a square is bounded by the sum of squares (the two-term
/// arithmetic-geometric inequality).
proof fn lemma_amgm(a: int, b: int)
    by (nonlinear_arith)
    ensures
        2 * abs(a * b) <= a * a + b * b,
{
}

/// A bound on the reflection numerator `2 * d * ui`: with the velocity
/// bounded by the fixed speed and `ui` one coordinate of `u`, the
/// numerator is at most a fixed multiple of `u`'s squared norm.
proof fn lemma_reflect_num_bound(vx: int, vy: int, vz: int, ux: int, uy: int, uz: int, ui: int,
    d: int, q: int)
    requires
        abs(vx) <= 7000,
        abs(vy) <= 7000,
        abs(vz) <= 7000,
        d == vx * ux + vy * uy + vz * uz,
        q == ux * ux + uy * uy + uz * uz,
        ui * ui <= q,
        ui == ux || ui == uy || ui == uz,
    ensures
        abs(2 * d * ui) <= 28000 * q,
{
    crate::math::lemma_mul_bound(vx, ux, 7000, abs(ux));
    crate::math::lemma_mul_bound(vy, uy, 7000, abs(uy));
    crate::math::lemma_mul_bound(vz, uz, 7000, abs(uz));
    assert(abs(d) <= 7000 * (abs(ux) + abs(uy) + abs(uz)));
    crate::math::lemma_mul_bound(d, ui, 7000 * (abs(ux) + abs(uy) + abs(uz)), abs(ui));
    assert((7000 * (abs(ux) + abs(uy) + abs(uz))) * abs(ui) == 7000 * (abs(ux) * abs(ui) + abs(
        uy,
    ) * abs(ui) + abs(uz) * abs(ui))) by (nonlinear_arith);
    lemma_amgm(ux, ui);
    lemma_amgm(uy, ui);
    lemma_amgm(uz, ui);
    assert(abs(ux) * abs(ui) == abs(ux * ui)) by (nonlinear_arith);
    assert(abs(uy) * abs(ui) == abs(uy * ui)) by (nonlinear_arith);
    assert(abs(uz) * abs(ui) == abs(uz * ui)) by (nonlinear_arith);
    assert(2 * (abs(ux * ui) + abs(uy * ui) + abs(uz * ui)) <= q + 3 * (ui * ui));
    assert(abs(2 * d * ui) == 2 * (abs(d * ui))) by (nonlinear_arith);
    assert(abs(d * ui) <= 7000 * (abs(ux * ui) + abs(uy * ui) + abs(uz * ui)));
    assert(abs(2 * d * ui) <= 7000 * (q + 3 * (ui * ui)));
    assert(abs(2 * d * ui) <= 28000 * q);
}

/// A floor quotient of a bounded numerator is bounded.
proof fn lemma_fdiv_bound(a: int, b: int, bound: int)
    by (nonlinear_arith)
    requires
        b > 0,
        bound >= 0,
        abs(a) <= bound * b,
    ensures
        abs(crate::math::fdiv(a, b)) <= bound,
{
}

/// A ceiling quotient of a bounded numerator is bounded.
proof fn lemma_cdiv_bound(a: int, b: int, bound: int)
    by (nonlinear_arith)
    requires
        b > 0,
        bound >= 0,
        abs(a) <= bound * b,
    ensures
        abs(crate::math::cdiv(a, b)) <= bound,
{
}

/// The reflection coefficient for one coordinate: `2 d ui / q`, rounded
/// down where `ui` is positive and up where it is negative, so that the
/// correction never overshoots inward progress.
pub open spec fn reflect_coeff(d: int, ui: int, q: int) -> int {
    if ui > 0 {
        crate::math::fdiv(2 * d * ui, q)
    } else if ui < 0 {
        crate::math::cdiv(2 * d * ui, q)
    } else {
        0
    }
}

/// The velocity reflected about the inward direction `u`:
/// `v - (2 (v . u) / (u . u)) u`, coordinatewise in fixed point.
pub open spec fn reflect_spec(v: Vec3I, u: Vec3I) -> Vec3I {
    let d = v.dot_spec(u);
    let q = u.norm2_spec();
    Vec3I {
        x: (v.x - reflect_coeff(d, u.x as int, q)) as i64,
        y: (v.y - reflect_coeff(d, u.y as int, q)) as i64,
        z: (v.z - reflect_coeff(d, u.z as int, q)) as i64,
    }
}

/// One executable reflection coefficient.
fn reflect_coeff_exec(d: i64, ui: i64, q: i64) -> (r: i64)
    requires
        q > 0,
        abs(d as int) <= 1500000000,
        abs(ui as int) <= 70000,
        abs(2 * (d as int) * ui) <= 28000 * q,
    ensures
        r == reflect_coeff(d as int, ui as int, q as int),
        abs(r as int) <= 28000,
{
    proof {
        crate::math::lemma_mul_bound(2 * d, ui as int, 3000000000, 70000);
        if ui > 0 {
            lemma_fdiv_bound(2 * d * ui, q as int, 28000);
        } else if ui < 0 {
            lemma_cdiv_bound(2 * d * ui, q as int, 28000);
        }
    }
    let num: i64 = (mul_wide(2 * d, ui)) as i64;
    if ui > 0 {
        crate::math::div_floor(num, q)
    } else if ui < 0 {
        crate::math::div_ceil(num, q)
    } else {
        0
    }
}

/// One coordinate's contribution to the post-reflection dot product:
/// the rounding of each coefficient is chosen so that
/// `q * ci * ui <= 2 d * ui^2`.
proof fn lemma_coeff_progress(d: int, ui: int, q: int)
    requires
        q > 0,
    ensures
        q * (reflect_coeff(d, ui, q) * ui) <= 2 * d * (ui * ui),
{
    let a = 2 * d * ui;
    if ui > 0 {
        let c = crate::math::fdiv(a, q);
        vstd::arithmetic::div_mod::lemma_fundamental_div_mod(a, q);
        vstd::arithmetic::div_mod::lemma_mod_bound(a, q);
        assert(q * c <= a);
        assert(q * (c * ui) <= a * ui) by (nonlinear_arith)
            requires
                q * c <= a,
                ui > 0,
        {
        }
        assert(a * ui == 2 * d * (ui * ui)) by (nonlinear_arith)
            requires
                a == 2 * d * ui,
        {
        }
    } else if ui < 0 {
        let c = crate::math::cdiv(a, q);
        vstd::arithmetic::div_mod::lemma_fundamental_div_mod(-a, q);
        vstd::arithmetic::div_mod::lemma_mod_bound(-a, q);
        assert(q * (-((-a) / q)) >= a) by (nonlinear_arith)
            requires
                -a == q * ((-a) / q) + (-a) % q,
                0 <= (-a) % q,
        {
        }
        assert(q * c >= a);
        assert(q * (c * ui) <= a * ui) by (nonlinear_arith)
            requires
                q * c >= a,
                ui < 0,
        {
        }
        assert(a * ui == 2 * d * (ui * ui)) by (nonlinear_arith)
            requires
                a == 2 * d * ui,
        {
        }
    } else {
        assert(reflect_coeff(d, ui, q) == 0);
        assert(q * (0 * ui) == 0) by (nonlinear_arith);
        assert(2 * d * (ui * ui) == 0) by (nonlinear_arith)
            requires
                ui == 0,
        {
        }
    }
}

/// Reflect the target's velocity about the inward direction `u`. The
/// result's dot product with `u` is at least the negation of the old
/// one: where the velocity pointed outward, the reflection points inward
/// at least as strongly. The reflected speed is deliberately not
/// renormalized to the fixed target speed; the next scheduled
/// redirection assigns a fresh fixed-speed heading anyway.
pub fn reflect_velocity(v: Vec3I, u: Vec3I) -> (r: Vec3I)
    requires
        v.bounded(7000),
        u.bounded(70000),
        u.norm2_spec() > 0,
    ensures
        r == reflect_spec(v, u),
        r.dot_spec(u) >= -v.dot_spec(u),
        r.bounded(SESSION_VEL_LIMIT as int),
{
    let dw: i128 = v.dot(u);
    let qw: i128 = u.norm2();
    proof {
        crate::math::lemma_mul_bound(v.x as int, u.x as int, 7000, 70000);
        crate::math::lemma_mul_bound(v.y as int, u.y as int, 7000, 70000);
        crate::math::lemma_mul_bound(v.z as int, u.z as int, 7000, 70000);
        crate::math::lemma_mul_bound(u.x as int, u.x as int, 70000, 70000);
        crate::math::lemma_mul_bound(u.y as int, u.y as int, 70000, 70000);
        crate::math::lemma_mul_bound(u.z as int, u.z as int, 70000, 70000);
        assert(u.x * u.x <= qw) by (nonlinear_arith)
            requires
                qw == u.x * u.x + u.y * u.y + u.z * u.z,
        {
        }
        assert(u.y * u.y <= qw) by (nonlinear_arith)
            requires
                qw == u.x * u.x + u.y * u.y + u.z * u.z,
        {
        }
        assert(u.z * u.z <= qw) by (nonlinear_arith)
            requires
                qw == u.x * u.x + u.y * u.y + u.z * u.z,
        {
        }
        lemma_reflect_num_bound(
            v.x as int,
            v.y as int,
            v.z as int,
            u.x as int,
            u.y as int,
            u.z as int,
            u.x as int,
            dw as int,
            qw as int,
        );
        lemma_reflect_num_bound(
            v.x as int,
            v.y as int,
            v.z as int,
            u.x as int,
            u.y as int,
            u.z as int,
            u.y as int,
            dw as int,
            qw as int,
        );
        lemma_reflect_num_bound(
            v.x as int,
            v.y as int,
            v.z as int,
            u.x as int,
            u.y as int,
            u.z as int,
            u.z as int,
            dw as int,
            qw as int,
        );
    }
    let d: i64 = dw as i64;
    let q: i64 = qw as i64;
    let cx = reflect_coeff_exec(d, u.x, q);
    let cy = reflect_coeff_exec(d, u.y, q);
    let cz = reflect_coeff_exec(d, u.z, q);
    let r = Vec3I { x: v.x - cx, y: v.y - cy, z: v.z - cz };
    proof {
        lemma_reflection_points_inward(v, u);
    }
    r
}

/// The reflection law: whenever the inward direction `u` is nonzero,
/// the reflected velocity's dot product with `u` is at least the
/// negation of the unreflected one's. A velocity that pointed outward
/// points inward, or at worst tangentially, afterwards.
pub proof fn lemma_reflection_points_inward(v: Vec3I, u: Vec3I)
    requires
        v.bounded(7000),
        u.bounded(70000),
        u.norm2_spec() > 0,
    ensures
        reflect_spec(v, u).dot_spec(u) >= -v.dot_spec(u),
{
    let d = v.dot_spec(u);
    let q = u.norm2_spec();
    let r = reflect_spec(v, u);
    assert(u.x * u.x <= q && u.y * u.y <= q && u.z * u.z <= q) by (nonlinear_arith)
        requires
            q == u.x * u.x + u.y * u.y + u.z * u.z,
    {
    }
    lemma_reflect_num_bound(
        v.x as int, v.y as int, v.z as int, u.x as int, u.y as int, u.z as int, u.x as int, d, q,
    );
    lemma_reflect_num_bound(
        v.x as int, v.y as int, v.z as int, u.x as int, u.y as int, u.z as int, u.y as int, d, q,
    );
    lemma_reflect_num_bound(
        v.x as int, v.y as int, v.z as int, u.x as int, u.y as int, u.z as int, u.z as int, d, q,
    );
    if u.x > 0 {
        lemma_fdiv_bound(2 * d * u.x, q, 28000);
    } else if u.x < 0 {
        lemma_cdiv_bound(2 * d * u.x, q, 28000);
    }
    if u.y > 0 {
        lemma_fdiv_bound(2 * d * u.y, q, 28000);
    } else if u.y < 0 {
        lemma_cdiv_bound(2 * d * u.y, q, 28000);
    }
    if u.z > 0 {
        lemma_fdiv_bound(2 * d * u.z, q, 28000);
    } else if u.z < 0 {
        lemma_cdiv_bound(2 * d * u.z, q, 28000);
    }
    lemma_coeff_progress(d, u.x as int, q);
    lemma_coeff_progress(d, u.y as int, q);
    lemma_coeff_progress(d, u.z as int, q);
    let sx = reflect_coeff(d, u.x as int, q) * u.x;
    let sy = reflect_coeff(d, u.y as int, q) * u.y;
    let sz = reflect_coeff(d, u.z as int, q) * u.z;
    assert(q * (sx + sy + sz) <= 2 * d * (u.x * u.x + u.y * u.y + u.z * u.z))
        by (nonlinear_arith)
        requires
            q * sx <= 2 * d * (u.x * u.x),
            q * sy <= 2 * d * (u.y * u.y),
            q * sz <= 2 * d * (u.z * u.z),
    {
    }
    assert(sx + sy + sz <= 2 * d) by (nonlinear_arith)
        requires
            q * (sx + sy + sz) <= 2 * d * q,
            q > 0,
    {
    }
    let cx0 = reflect_coeff(d, u.x as int, q);
    let cy0 = reflect_coeff(d, u.y as int, q);
    let cz0 = reflect_coeff(d, u.z as int, q);
    assert((v.x - cx0) * u.x == v.x * u.x - cx0 * u.x) by (nonlinear_arith);
    assert((v.y - cy0) * u.y == v.y * u.y - cy0 * u.y) by (nonlinear_arith);
    assert((v.z - cz0) * u.z == v.z * u.z - cz0 * u.z) by (nonlinear_arith);
    assert(r.dot_spec(u) == d - (sx + sy + sz));
}


/// One coordinate clamped to a closed range.
pub open spec fn clamp_coord(v: int, lo: int, hi: int) -> int {
    if v < lo {
        lo
    } else if v > hi {
        hi
    } else {
        v
    }
}

/// A local position clamped to the bounding volume.
pub open spec fn clamp_bounds(p: Vec3I) -> Vec3I {
    Vec3I {
        x: clamp_coord(p.x as int, -TARGET_BOUND_X_MILLI as int, TARGET_BOUND_X_MILLI as int) as i64,
        y: clamp_coord(p.y as int, -TARGET_BOUND_Y_MILLI as int, TARGET_BOUND_Y_MILLI as int) as i64,
        z: clamp_coord(p.z as int, TARGET_BOUND_Z_MIN_MILLI as int, TARGET_BOUND_Z_MAX_MILLI as int) as i64,
    }
}

/// The position reached from `l` after `dt` microseconds at velocity `v`
/// (milliunits per second), each coordinate rounded toward zero.
pub open spec fn step_spec(l: Vec3I, v: Vec3I, dt: int) -> Vec3I {
    Vec3I {
        x: (l.x + tdiv(v.x * dt, 1000000)) as i64,
        y: (l.y + tdiv(v.y * dt, 1000000)) as i64,
        z: (l.z + tdiv(v.z * dt, 1000000)) as i64,
    }
}

/// The executable integration step.
pub fn step_position(l: Vec3I, v: Vec3I, dt: i64) -> (r: Vec3I)
    requires
        l.bounded(20000),
        v.bounded(SESSION_VEL_LIMIT as int),
        0 <= dt <= MAX_TICK_DT_US,
    ensures
        r == step_spec(l, v, dt as int),
        r.bounded(70000),
{
    proof {
        crate::math::lemma_mul_bound(v.x as int, dt as int, SESSION_VEL_LIMIT as int, MAX_TICK_DT_US as int);
        crate::math::lemma_mul_bound(v.y as int, dt as int, SESSION_VEL_LIMIT as int, MAX_TICK_DT_US as int);
        crate::math::lemma_mul_bound(v.z as int, dt as int, SESSION_VEL_LIMIT as int, MAX_TICK_DT_US as int);
        lemma_tdiv_bound(v.x * dt, 1000000, SESSION_VEL_LIMIT as int);
        lemma_tdiv_bound(v.y * dt, 1000000, SESSION_VEL_LIMIT as int);
        lemma_tdiv_bound(v.z * dt, 1000000, SESSION_VEL_LIMIT as int);
    }
    let x = l.x + div_trunc(mul_wide(v.x, dt) as i64, 1000000);
    let y = l.y + div_trunc(mul_wide(v.y, dt) as i64, 1000000);
    let z = l.z + div_trunc(mul_wide(v.z, dt) as i64, 1000000);
    Vec3I { x, y, z }
}

/// A heading turned by the minimum angle plus a random extra offset, on
/// the degree circle.
pub open spec fn turned_heading(h: int, off: int) -> int {
    (h + 45 + off) % 360
}

/// The minimum-turn guarantee: whatever the extra offset below 270
/// degrees, the new heading differs from the old one by at least 45
/// degrees around the circle.
pub proof fn lemma_redirect_min_turn(h: int, off: int)
    requires
        0 <= h < 360,
        0 <= off < 270,
    ensures
        45 <= (turned_heading(h, off) - h + 360) % 360 <= 315,
        0 <= turned_heading(h, off) < 360,
{
    let k = 45 + off;
    if h + k < 360 {
        assert(turned_heading(h, off) == h + k);
        assert((turned_heading(h, off) - h + 360) % 360 == k);
    } else {
        assert(turned_heading(h, off) == h + k - 360);
        assert((turned_heading(h, off) - h + 360) % 360 == k);
    }
}

/// The sample a running tick appends.
pub open spec fn tick_sample(o: ReactionTest, elapsed: int, cam: Vec3I, new_local: Vec3I)
    -> DataPoint {
    DataPoint {
        time_us: elapsed as i64,
        target_pos: basis_combine_spec(
            o.camera_origin,
            o.basis_right,
            o.basis_up,
            o.basis_forward,
            new_local,
        ),
        crosshair_dir: o.crosshair_direction,
        camera_pos: cam,
        target_x: new_local.x,
        target_y: new_local.y,
        crosshair_x: project_dir_spec(o.basis_right, o.crosshair_direction) as i64,
        crosshair_y: project_dir_spec(o.basis_up, o.crosshair_direction) as i64,
    }
}

/// What one running tick does, before the trial-end check: the shot at
/// its cadence, the candidate step, the redirection with its minimum
/// turn and boundary reflection, the clamp, and the recorded sample.
pub open spec fn tick_post(o: ReactionTest, dt: int, now: int, cam: Vec3I, off: int, interval:
    int, t: ReactionTest, fired: Option<bool>) -> bool {
    let elapsed = now - o.start_time_us;
    let shot_due = elapsed - o.last_shot_time_us >= o.shot_interval_us;
    let hit = ray_hits_sphere(
        cam,
        o.crosshair_direction,
        o.target_world_spec(),
        TARGET_SIZE_MILLI as int,
    );
    let candidate = step_spec(o.target_local, o.target_velocity, dt);
    let boundary = !in_bounds(candidate);
    let redirect = elapsed >= o.next_direction_change_us || boundary;
    let heading = if redirect {
        turned_heading(o.target_heading_deg as int, off)
    } else {
        o.target_heading_deg as int
    };
    let fresh2 = heading_velocity_spec(heading, TARGET_SPEED_MILLI as int);
    let fresh = Vec3I { x: fresh2.x, y: fresh2.y, z: 0i64 };
    let u = Vec3I { x: (-candidate.x) as i64, y: (-candidate.y) as i64, z: (-candidate.z) as i64 };
    let vel = if redirect {
        if boundary && u.norm2_spec() > 0 && fresh.dot_spec(u) < 0 {
            reflect_spec(fresh, u)
        } else {
            fresh
        }
    } else {
        o.target_velocity
    };
    let new_local = clamp_bounds(step_spec(o.target_local, vel, dt));
    &&& fired == (if shot_due {
        Some(hit)
    } else {
        Option::<bool>::None
    })
    &&& t.hits == (if shot_due && hit {
        o.hits + 1
    } else {
        o.hits as int
    })
    &&& t.misses == (if shot_due && !hit {
        o.misses + 1
    } else {
        o.misses as int
    })
    &&& t.last_shot_time_us == (if shot_due {
        elapsed
    } else {
        o.last_shot_time_us as int
    })
    &&& t.target_heading_deg == heading
    &&& t.target_velocity == vel
    &&& t.target_local == new_local
    &&& t.next_direction_change_us == (if redirect {
        elapsed + interval
    } else {
        o.next_direction_change_us as int
    })
    &&& t.change_interval_us == (if redirect {
        interval
    } else {
        o.change_interval_us as int
    })
    &&& t.last_direction_change_time_us == (if redirect {
        elapsed
    } else {
        o.last_direction_change_time_us as int
    })
    &&& t.data@ == o.data@.push(tick_sample(o, elapsed, cam, new_local))
    &&& t == (ReactionTest {
        hits: t.hits,
        misses: t.misses,
        last_shot_time_us: t.last_shot_time_us,
        target_heading_deg: t.target_heading_deg,
        target_velocity: t.target_velocity,
        target_local: t.target_local,
        next_direction_change_us: t.next_direction_change_us,
        change_interval_us: t.change_interval_us,
        last_direction_change_time_us: t.last_direction_change_time_us,
        data: t.data,
        ..o
    })
}

/// One tick of a running trial that has not yet reached its end: fire at
/// the cadence, integrate, redirect on schedule or at the boundary,
/// clamp, and record a sample.
pub fn advance_running_tick(test: &mut ReactionTest, dt_us: i64, now_us: i64, camera_position:
    Vec3I, turn_offset_deg: u64, interval_us: i64) -> (fired: Option<bool>)
    requires
        old(test).inv(),
        old(test).is_running,
        0 <= dt_us <= MAX_TICK_DT_US,
        old(test).start_time_us <= now_us,
        now_us - old(test).start_time_us < TEST_DURATION_US,
        camera_position.bounded(SESSION_POS_LIMIT as int),
        turn_offset_deg < 270,
        200000 <= interval_us < 500000,
        old(test).hits < u32::MAX,
        old(test).misses < u32::MAX,
        old(test).data@.len() < crate::sample::SERIES_LEN_LIMIT,
        old(test).data@.len() > 0 ==> now_us - old(test).start_time_us >= old(
            test,
        ).data@.last().time_us,
    ensures
        final(test).inv(),
        final(test).is_running,
        tick_post(
            *old(test),
            dt_us as int,
            now_us as int,
            camera_position,
            turn_offset_deg as int,
            interval_us as int,
            *final(test),
            fired,
        ),
{
    let elapsed = now_us - test.start_time_us;
    let mut fired: Option<bool> = None;
    if elapsed - test.last_shot_time_us >= test.shot_interval_us {
        test.last_shot_time_us = elapsed;
        let center = basis_combine(
            test.camera_origin,
            test.basis_right,
            test.basis_up,
            test.basis_forward,
            test.target_local,
        );
        let hit = crate::geom::ray_sphere_intersection(
            camera_position,
            test.crosshair_direction,
            center,
            TARGET_SIZE_MILLI,
        );
        if hit {
            test.hits = test.hits + 1;
        } else {
            test.misses = test.misses + 1;
        }
        fired = Some(hit);
    }
    let candidate = step_position(test.target_local, test.target_velocity, dt_us);
    let hit_boundary = candidate.x < -TARGET_BOUND_X_MILLI || candidate.x > TARGET_BOUND_X_MILLI
        || candidate.y < -TARGET_BOUND_Y_MILLI || candidate.y > TARGET_BOUND_Y_MILLI
        || candidate.z < TARGET_BOUND_Z_MIN_MILLI || candidate.z > TARGET_BOUND_Z_MAX_MILLI;
    let should_change = elapsed >= test.next_direction_change_us;
    if should_change || hit_boundary {
        let new_heading = (test.target_heading_deg + 45 + turn_offset_deg) % 360;
        let fresh2 = heading_velocity(new_heading, TARGET_SPEED_MILLI);
        let mut vel = Vec3I { x: fresh2.x, y: fresh2.y, z: 0 };
        if hit_boundary {
            let u = Vec3I { x: -candidate.x, y: -candidate.y, z: -candidate.z };
            let q = u.norm2();
            if q > 0 {
                let d = vel.dot(u);
                proof {
                    crate::math::lemma_mul_bound(vel.x as int, u.x as int, 7000, 70000);
                    crate::math::lemma_mul_bound(vel.y as int, u.y as int, 7000, 70000);
                    crate::math::lemma_mul_bound(vel.z as int, u.z as int, 7000, 70000);
                }
                if d < 0 {
                    vel = reflect_velocity(vel, u);
                }
            }
        }
        test.target_velocity = vel;
        test.target_heading_deg = new_heading;
        test.change_interval_us = interval_us;
        test.next_direction_change_us = elapsed + interval_us;
        test.last_direction_change_time_us = elapsed;
    }
    let candidate2 = step_position(test.target_local, test.target_velocity, dt_us);
    let x = clamp_exec(candidate2.x, -TARGET_BOUND_X_MILLI, TARGET_BOUND_X_MILLI);
    let y = clamp_exec(candidate2.y, -TARGET_BOUND_Y_MILLI, TARGET_BOUND_Y_MILLI);
    let z = clamp_exec(candidate2.z, TARGET_BOUND_Z_MIN_MILLI, TARGET_BOUND_Z_MAX_MILLI);
    test.target_local = Vec3I { x, y, z };
    let world = basis_combine(
        test.camera_origin,
        test.basis_right,
        test.basis_up,
        test.basis_forward,
        test.target_local,
    );
    let crosshair_x = project_dir(test.basis_right, test.crosshair_direction);
    let crosshair_y = project_dir(test.basis_up, test.crosshair_direction);
    let point = DataPoint {
        time_us: elapsed,
        target_pos: world,
        crosshair_dir: test.crosshair_direction,
        camera_pos: camera_position,
        target_x: test.target_local.x,
        target_y: test.target_local.y,
        crosshair_x,
        crosshair_y,
    };
    test.data.push(point);
    fired
}

/// One coordinate clamped to a closed range.
fn clamp_exec(v: i64, lo: i64, hi: i64) -> (r: i64)
    requires
        lo <= hi,
    ensures
        r == clamp_coord(v as int, lo as int, hi as int),
        lo <= r <= hi,
{
    if v < lo {
        lo
    } else if v > hi {
        hi
    } else {
        v
    }
}

} // verus!
