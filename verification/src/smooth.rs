//! Smoothed directions: the average per-step velocity of the target or the
//! crosshair over a window of samples, in milliunits per second. Steps
//! shorter than a millisecond and steps slower than a floor speed are left
//! out; an empty average is the zero vector.

use vstd::prelude::*;
use crate::math::{abs, tdiv, div_trunc, mul_wide};
use crate::trig::lemma_tdiv_bound;
use crate::vec::Vec2I;
use crate::sample::{DataPoint, valid_series};

verus! {

/// A qualifying step must span more than this many microseconds.
pub const MIN_STEP_DT_US: i64 = 1000;

/// The largest per-step speed a valid series can produce, in milliunits
/// per second: a coordinate step of at most twice the position range over
/// more than a millisecond.
pub const STEP_VEL_LIMIT: i64 = 2000000000000;

/// The target's planar velocity across one step, in milliunits per
/// second: the projected displacement over the step's duration.
pub open spec fn target_step_vel(a: DataPoint, b: DataPoint) -> Vec2I {
    let dt = b.time_us - a.time_us;
    Vec2I {
        x: tdiv((b.target_x - a.target_x) * 1000000, dt) as i64,
        y: tdiv((b.target_y - a.target_y) * 1000000, dt) as i64,
    }
}

/// The crosshair's planar velocity across one step, in milliunits per
/// second.
pub open spec fn crosshair_step_vel(a: DataPoint, b: DataPoint) -> Vec2I {
    let dt = b.time_us - a.time_us;
    Vec2I {
        x: tdiv((b.crosshair_x - a.crosshair_x) * 1000000, dt) as i64,
        y: tdiv((b.crosshair_y - a.crosshair_y) * 1000000, dt) as i64,
    }
}

/// A target step qualifies when it spans more than a millisecond and is
/// faster than 0.1 units per second (squared: 100 milliunits per second,
/// squared).
pub open spec fn target_step_qualifies(a: DataPoint, b: DataPoint) -> bool {
    b.time_us - a.time_us > MIN_STEP_DT_US && target_step_vel(a, b).norm2_spec() > 10000
}

/// A crosshair step qualifies when it spans more than a millisecond and
/// is faster than 0.05 units per second (squared: 50 milliunits per
/// second, squared).
pub open spec fn crosshair_step_qualifies(a: DataPoint, b: DataPoint) -> bool {
    b.time_us - a.time_us > MIN_STEP_DT_US && crosshair_step_vel(a, b).norm2_spec() > 2500
}

/// The summed qualifying target step velocities over `[start, end)` and
/// their count.
pub open spec fn target_vel_acc(s: Seq<DataPoint>, start: int, end: int) -> (int, int, int)
    decreases end - start,
{
    if end <= start + 1 {
        (0, 0, 0)
    } else {
        let prev = target_vel_acc(s, start, end - 1);
        let a = s[end - 2];
        let b = s[end - 1];
        if target_step_qualifies(a, b) {
            let v = target_step_vel(a, b);
            (prev.0 + v.x, prev.1 + v.y, prev.2 + 1)
        } else {
            prev
        }
    }
}

/// The summed qualifying crosshair step velocities over `[start, end)`
/// and their count.
pub open spec fn crosshair_vel_acc(s: Seq<DataPoint>, start: int, end: int) -> (int, int, int)
    decreases end - start,
{
    if end <= start + 1 {
        (0, 0, 0)
    } else {
        let prev = crosshair_vel_acc(s, start, end - 1);
        let a = s[end - 2];
        let b = s[end - 1];
        if crosshair_step_qualifies(a, b) {
            let v = crosshair_step_vel(a, b);
            (prev.0 + v.x, prev.1 + v.y, prev.2 + 1)
        } else {
            prev
        }
    }
}

/// The smoothed target direction over `[start, end)`: the average of the
/// qualifying step velocities, or zero when the range is improper or no
/// step qualifies.
pub open spec fn smoothed_target_dir_spec(s: Seq<DataPoint>, start: int, end: int) -> Vec2I {
    if start >= end || end >= s.len() {
        Vec2I { x: 0i64, y: 0i64 }
    } else {
        let acc = target_vel_acc(s, start, end);
        if acc.2 > 0 {
            Vec2I { x: tdiv(acc.0, acc.2) as i64, y: tdiv(acc.1, acc.2) as i64 }
        } else {
            Vec2I { x: 0i64, y: 0i64 }
        }
    }
}

/// The smoothed crosshair direction over `[start, end)`.
pub open spec fn smoothed_crosshair_dir_spec(s: Seq<DataPoint>, start: int, end: int) -> Vec2I {
    if start >= end || end >= s.len() {
        Vec2I { x: 0i64, y: 0i64 }
    } else {
        let acc = crosshair_vel_acc(s, start, end);
        if acc.2 > 0 {
            Vec2I { x: tdiv(acc.0, acc.2) as i64, y: tdiv(acc.1, acc.2) as i64 }
        } else {
            Vec2I { x: 0i64, y: 0i64 }
        }
    }
}

/// A qualifying step's velocity coordinates stay within the step-velocity
/// range.
proof fn lemma_target_step_vel_bounded(a: DataPoint, b: DataPoint)
    requires
        a.valid(),
        b.valid(),
        b.time_us - a.time_us > MIN_STEP_DT_US,
    ensures
        target_step_vel(a, b).bounded(STEP_VEL_LIMIT as int),
{
    let dt = b.time_us - a.time_us;
    lemma_tdiv_bound((b.target_x - a.target_x) * 1000000, dt as int, STEP_VEL_LIMIT as int);
    lemma_tdiv_bound((b.target_y - a.target_y) * 1000000, dt as int, STEP_VEL_LIMIT as int);
}

/// A qualifying crosshair step's velocity coordinates stay within the
/// step-velocity range.
proof fn lemma_crosshair_step_vel_bounded(a: DataPoint, b: DataPoint)
    requires
        a.valid(),
        b.valid(),
        b.time_us - a.time_us > MIN_STEP_DT_US,
    ensures
        crosshair_step_vel(a, b).bounded(STEP_VEL_LIMIT as int),
{
    let dt = b.time_us - a.time_us;
    lemma_tdiv_bound((b.crosshair_x - a.crosshair_x) * 1000000, dt as int, STEP_VEL_LIMIT as int);
    lemma_tdiv_bound((b.crosshair_y - a.crosshair_y) * 1000000, dt as int, STEP_VEL_LIMIT as int);
}

/// The smoothed target direction over a sample window: sum the
/// displacement-over-time of each qualifying step, then divide by the
/// number of qualifying steps.
pub fn calculate_smoothed_target_direction(data: &Vec<DataPoint>, start_idx: usize, end_idx:
    usize) -> (r: Vec2I)
    requires
        valid_series(data@),
    ensures
        r == smoothed_target_dir_spec(data@, start_idx as int, end_idx as int),
        r.bounded(STEP_VEL_LIMIT as int),
{
    if start_idx >= end_idx || end_idx >= data.len() {
        return Vec2I { x: 0, y: 0 };
    }
    let ghost s = data@;
    let mut sum_x: i64 = 0;
    let mut sum_y: i64 = 0;
    let mut count: i64 = 0;
    let mut k = start_idx;
    while k + 1 < end_idx
        invariant
            valid_series(s),
            s == data@,
            start_idx <= k < end_idx,
            end_idx < s.len(),
            target_vel_acc(s, start_idx as int, k + 1 as int) == (
                sum_x as int,
                sum_y as int,
                count as int,
            ),
            0 <= count <= k - start_idx,
            abs(sum_x as int) <= count * STEP_VEL_LIMIT,
            abs(sum_y as int) <= count * STEP_VEL_LIMIT,
        decreases end_idx - k,
    {
        let a = data[k];
        let b = data[k + 1];
        let dt = b.time_us - a.time_us;
        if dt > MIN_STEP_DT_US {
            proof {
                lemma_target_step_vel_bounded(a, b);
            }
            let dx = b.target_x - a.target_x;
            let dy = b.target_y - a.target_y;
            let vx = div_trunc(mul_wide(dx, 1000000) as i64, dt);
            let vy = div_trunc(mul_wide(dy, 1000000) as i64, dt);
            let v = Vec2I { x: vx, y: vy };
            if v.norm2() > 10000 {
                sum_x = sum_x + vx;
                sum_y = sum_y + vy;
                count = count + 1;
            }
        }
        k = k + 1;
    }
    if count > 0 {
        proof {
            lemma_tdiv_bound(sum_x as int, count as int, STEP_VEL_LIMIT as int);
            lemma_tdiv_bound(sum_y as int, count as int, STEP_VEL_LIMIT as int);
        }
        Vec2I { x: div_trunc(sum_x, count), y: div_trunc(sum_y, count) }
    } else {
        Vec2I { x: 0, y: 0 }
    }
}

/// The smoothed crosshair direction over a sample window.
pub fn calculate_smoothed_crosshair_direction(data: &Vec<DataPoint>, start_idx: usize, end_idx:
    usize) -> (r: Vec2I)
    requires
        valid_series(data@),
    ensures
        r == smoothed_crosshair_dir_spec(data@, start_idx as int, end_idx as int),
        r.bounded(STEP_VEL_LIMIT as int),
{
    if start_idx >= end_idx || end_idx >= data.len() {
        return Vec2I { x: 0, y: 0 };
    }
    let ghost s = data@;
    let mut sum_x: i64 = 0;
    let mut sum_y: i64 = 0;
    let mut count: i64 = 0;
    let mut k = start_idx;
    while k + 1 < end_idx
        invariant
            valid_series(s),
            s == data@,
            start_idx <= k < end_idx,
            end_idx < s.len(),
            crosshair_vel_acc(s, start_idx as int, k + 1 as int) == (
                sum_x as int,
                sum_y as int,
                count as int,
            ),
            0 <= count <= k - start_idx,
            abs(sum_x as int) <= count * STEP_VEL_LIMIT,
            abs(sum_y as int) <= count * STEP_VEL_LIMIT,
        decreases end_idx - k,
    {
        let a = data[k];
        let b = data[k + 1];
        let dt = b.time_us - a.time_us;
        if dt > MIN_STEP_DT_US {
            proof {
                lemma_crosshair_step_vel_bounded(a, b);
            }
            let dx = b.crosshair_x - a.crosshair_x;
            let dy = b.crosshair_y - a.crosshair_y;
            let vx = div_trunc(mul_wide(dx, 1000000) as i64, dt);
            let vy = div_trunc(mul_wide(dy, 1000000) as i64, dt);
            let v = Vec2I { x: vx, y: vy };
            if v.norm2() > 2500 {
                sum_x = sum_x + vx;
                sum_y = sum_y + vy;
                count = count + 1;
            }
        }
        k = k + 1;
    }
    if count > 0 {
        proof {
            lemma_tdiv_bound(sum_x as int, count as int, STEP_VEL_LIMIT as int);
            lemma_tdiv_bound(sum_y as int, count as int, STEP_VEL_LIMIT as int);
        }
        Vec2I { x: div_trunc(sum_x, count), y: div_trunc(sum_y, count) }
    } else {
        Vec2I { x: 0, y: 0 }
    }
}

} // verus!
