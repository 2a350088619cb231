//! Reaction-delay matching: for each detected target direction change,
//! search a bounded window after it for the first moment the player's
//! smoothed crosshair direction both turns far enough away from its
//! pre-change heading and aligns measurably better with the target's new
//! direction.

use vstd::prelude::*;
use crate::math::{abs, tdiv, div_trunc, mul_wide};
use crate::trig::lemma_tdiv_bound;
use crate::vec::Vec2I;
use crate::sample::{DataPoint, DirectionChange, valid_series, normalize_milli,
    normalize_milli_spec, idx_first_at_or_after, find_first_at_or_after, lemma_idx_first_props,
    SAMPLE_TIME_LIMIT};
use crate::smooth::{crosshair_vel_acc, smoothed_crosshair_dir_spec,
    calculate_smoothed_crosshair_direction, MIN_STEP_DT_US, STEP_VEL_LIMIT};
use crate::detect::events_valid;
use crate::angle::{angle2_spec, angle_between_2d};

verus! {

/// The search window after an event: a reaction is looked for no sooner
/// than this (microseconds).
pub const REACT_MIN_DELAY_US: i64 = 70000;

/// The search window after an event: a reaction is looked for no later
/// than this (microseconds).
pub const REACT_MAX_DELAY_US: i64 = 800000;

/// How far before an event the pre-change crosshair heading is averaged
/// (microseconds).
pub const PRE_CHANGE_WINDOW_US: i64 = 150000;

/// The crosshair smoothing window, in samples.
pub const REACT_WINDOW: usize = 3;

/// The smallest crosshair turn that counts as a reaction (degrees).
pub const MIN_REACT_TURN_DEG: u64 = 25;

/// How much better the new heading must align with the target's new
/// direction, on the dot product of milliunit-scale directions.
pub const ALIGN_MARGIN: i64 = 50000;

/// The player's average crosshair heading over the window before time
/// `t`: the crosshair steps between samples in `[t - 150 ms, t)`. None
/// when fewer than three samples lie in that window or no step
/// qualifies.
pub open spec fn pre_change_dir_spec(s: Seq<DataPoint>, t: int) -> Option<Vec2I> {
    let lo = idx_first_at_or_after(s, t - PRE_CHANGE_WINDOW_US, 0);
    let hi = idx_first_at_or_after(s, t, 0);
    if hi - lo < 3 {
        None
    } else {
        let acc = crosshair_vel_acc(s, lo, hi);
        if acc.2 > 0 {
            Some(Vec2I { x: tdiv(acc.0, acc.2) as i64, y: tdiv(acc.1, acc.2) as i64 })
        } else {
            None
        }
    }
}

/// The player's crosshair heading averaged over the window before
/// time `t`.
pub fn calculate_crosshair_direction_before_time(data: &Vec<DataPoint>, t: i64) -> (r: Option<
    Vec2I>)
    requires
        valid_series(data@),
        0 <= t <= SAMPLE_TIME_LIMIT + REACT_MAX_DELAY_US,
    ensures
        r == pre_change_dir_spec(data@, t as int),
        r matches Some(v) ==> v.bounded(STEP_VEL_LIMIT as int),
{
    let ghost s = data@;
    let lo = find_first_at_or_after(data, t - PRE_CHANGE_WINDOW_US);
    let hi = find_first_at_or_after(data, t);
    if hi < 3 || hi - 3 < lo {
        return None;
    }
    let mut sum_x: i64 = 0;
    let mut sum_y: i64 = 0;
    let mut count: i64 = 0;
    let mut k = lo;
    while k + 1 < hi
        invariant
            valid_series(s),
            s == data@,
            lo <= k,
            k < hi || k == lo,
            hi <= s.len(),
            lo + 3 <= hi,
            crosshair_vel_acc(s, lo as int, k + 1 as int) == (
                sum_x as int,
                sum_y as int,
                count as int,
            ),
            0 <= count <= k - lo,
            abs(sum_x as int) <= count * STEP_VEL_LIMIT,
            abs(sum_y as int) <= count * STEP_VEL_LIMIT,
        decreases hi - k,
    {
        let a = data[k];
        let b = data[k + 1];
        let dt = b.time_us - a.time_us;
        if dt > MIN_STEP_DT_US {
            proof {
                lemma_tdiv_bound(
                    (b.crosshair_x - a.crosshair_x) * 1000000,
                    dt as int,
                    STEP_VEL_LIMIT as int,
                );
                lemma_tdiv_bound(
                    (b.crosshair_y - a.crosshair_y) * 1000000,
                    dt as int,
                    STEP_VEL_LIMIT as int,
                );
            }
            let dx = b.crosshair_x - a.crosshair_x;
            let dy = b.crosshair_y - a.crosshair_y;
            let vx = div_trunc(mul_wide(dx, 1000000) as i64, dt);
            let vy = div_trunc(mul_wide(dy, 1000000) as i64, dt);
            let v = Vec2I { x: vx, y: vy };
            if v.norm2() > 2500 {
                sum_x = sum_x + vx;
                sum_y = sum_y + vy;
                count = count + 1;
            }
        }
        k = k + 1;
    }
    if count > 0 {
        proof {
            lemma_tdiv_bound(sum_x as int, count as int, STEP_VEL_LIMIT as int);
            lemma_tdiv_bound(sum_y as int, count as int, STEP_VEL_LIMIT as int);
        }
        Some(Vec2I { x: div_trunc(sum_x, count), y: div_trunc(sum_y, count) })
    } else {
        None
    }
}

/// Whether the player is judged to have reacted at sample `i`: the
/// smoothed crosshair direction is fast enough, has turned at least the
/// minimum angle from the pre-change heading, and aligns with the
/// target's new direction by more than the margin over the old heading.
pub open spec fn reaction_at(s: Seq<DataPoint>, ev: DirectionChange, pre: Vec2I, i: int) -> bool {
    let cur = smoothed_crosshair_dir_spec(s, i, i + 3);
    &&& cur.norm2_spec() >= 10000
    &&& angle2_spec(pre, cur) >= 25
    &&& normalize_milli_spec(cur).dot_spec(ev.target_new_direction) > normalize_milli_spec(
        pre,
    ).dot_spec(ev.target_new_direction) + ALIGN_MARGIN
}

/// The first sample in `[i, end)` where a reaction is judged, and its
/// timestamp; None when there is none.
pub open spec fn reaction_scan(s: Seq<DataPoint>, ev: DirectionChange, pre: Vec2I, i: int, end:
    int) -> Option<i64>
    decreases end - i,
{
    if i >= end {
        None
    } else if reaction_at(s, ev, pre, i) {
        Some(s[i].time_us)
    } else {
        reaction_scan(s, ev, pre, i + 1, end)
    }
}

/// The reaction the search window yields for one event: the first sample
/// between the window bounds where the player is judged to have reacted.
pub open spec fn find_reaction_spec(s: Seq<DataPoint>, ev: DirectionChange, start_t: int, end_t:
    int) -> Option<i64> {
    let start_idx = idx_first_at_or_after(s, start_t, 0);
    let hi = idx_first_at_or_after(s, end_t + 1, 0);
    if start_idx >= s.len() || hi <= 0 {
        None
    } else {
        let end_idx = hi - 1;
        if start_idx >= end_idx {
            None
        } else {
            match pre_change_dir_spec(s, ev.time_us as int) {
                Some(pre) => reaction_scan(s, ev, pre, start_idx, end_idx - 3),
                None => None,
            }
        }
    }
}

/// Search the window for the player's reaction to one direction change.
/// A result always lies within the search window.
#[verifier::loop_isolation(false)]
pub fn find_player_reaction(data: &Vec<DataPoint>, target_change: &DirectionChange,
    search_start_time: i64, search_end_time: i64) -> (r: Option<i64>)
    requires
        valid_series(data@),
        0 <= target_change.time_us <= SAMPLE_TIME_LIMIT,
        target_change.target_new_direction.bounded(1000),
        search_start_time == target_change.time_us + REACT_MIN_DELAY_US,
        search_end_time == target_change.time_us + REACT_MAX_DELAY_US,
    ensures
        r == find_reaction_spec(
            data@,
            *target_change,
            search_start_time as int,
            search_end_time as int,
        ),
        r matches Some(t) ==> search_start_time <= t <= search_end_time,
{
    let ghost s = data@;
    let start_idx = find_first_at_or_after(data, search_start_time);
    let hi = find_first_at_or_after(data, search_end_time + 1);
    proof {
        lemma_idx_first_props(s, search_start_time as int, 0);
        lemma_idx_first_props(s, search_end_time + 1 as int, 0);
    }
    if start_idx >= data.len() || hi == 0 {
        return None;
    }
    let end_idx = hi - 1;
    if start_idx >= end_idx {
        return None;
    }
    let pre = match calculate_crosshair_direction_before_time(data, target_change.time_us) {
        Some(p) => p,
        None => {
            return None;
        },
    };
    if end_idx < 3 {
        return None;
    }
    let scan_end = end_idx - 3;
    let mut i = start_idx;
    while i < scan_end
        invariant
            valid_series(s),
            s == data@,
            start_idx <= i,
            i <= scan_end || i == start_idx,
            scan_end + 3 == end_idx,
            end_idx < s.len(),
            start_idx < s.len(),
            target_change.target_new_direction.bounded(1000),
            pre.bounded(STEP_VEL_LIMIT as int),
            forall|j: int| start_idx <= j < end_idx ==> search_start_time
                <= #[trigger] s[j].time_us <= search_end_time,
            reaction_scan(s, *target_change, pre, start_idx as int, scan_end as int)
                == reaction_scan(s, *target_change, pre, i as int, scan_end as int),
        decreases scan_end - i,
    {
        let cur = calculate_smoothed_crosshair_direction(data, i, i + REACT_WINDOW);
        let mut reacted = false;
        if cur.norm2() >= 10000 {
            let ang = angle_between_2d(pre, cur);
            if ang >= MIN_REACT_TURN_DEG {
                let cur_n = normalize_milli(cur);
                let old_n = normalize_milli(pre);
                let target_alignment = cur_n.dot(target_change.target_new_direction);
                let old_target_alignment = old_n.dot(target_change.target_new_direction);
                proof {
                    let ev = target_change.target_new_direction;
                    crate::math::lemma_mul_bound(old_n.x as int, ev.x as int, 1000, 1000);
                    crate::math::lemma_mul_bound(old_n.y as int, ev.y as int, 1000, 1000);
                }
                if target_alignment > old_target_alignment + (ALIGN_MARGIN as i128) {
                    reacted = true;
                }
            }
        }
        proof {
            assert(reacted == reaction_at(s, *target_change, pre, i as int));
        }
        if reacted {
            proof {
                assert(reaction_scan(s, *target_change, pre, i as int, scan_end as int)
                    == Some(s[i as int].time_us));
            }
            return Some(data[i].time_us);
        }
        i = i + 1;
    }
    None
}

/// The delays gathered from the first `i` events.
pub open spec fn delays_upto(s: Seq<DataPoint>, evs: Seq<DirectionChange>, i: int) -> Seq<i64>
    decreases i,
{
    if i <= 0 {
        Seq::empty()
    } else {
        let prev = delays_upto(s, evs, i - 1);
        let ev = evs[i - 1];
        match find_reaction_spec(
            s,
            ev,
            ev.time_us + REACT_MIN_DELAY_US,
            ev.time_us + REACT_MAX_DELAY_US,
        ) {
            Some(t) => prev.push((t - ev.time_us) as i64),
            None => prev,
        }
    }
}

/// The reaction delays of a whole event list.
pub open spec fn delays_spec(s: Seq<DataPoint>, evs: Seq<DirectionChange>) -> Seq<i64> {
    delays_upto(s, evs, evs.len() as int)
}

/// Every delay the matching yields lies within the search window.
pub open spec fn delays_in_window(ds: Seq<i64>) -> bool {
    forall|k: int|
        0 <= k < ds.len() ==> REACT_MIN_DELAY_US <= #[trigger] ds[k] <= REACT_MAX_DELAY_US
}

/// Match each direction change to the player's reaction and collect the
/// delays; events with no qualifying reaction are left out, never
/// zero-filled. Every returned delay is between 70 ms and 800 ms.
pub fn calculate_reaction_delays(data: &Vec<DataPoint>, target_changes: &Vec<DirectionChange>)
    -> (r: Vec<i64>)
    requires
        valid_series(data@),
        events_valid(target_changes@),
    ensures
        r@ == delays_spec(data@, target_changes@),
        delays_in_window(r@),
{
    let ghost s = data@;
    let mut delays: Vec<i64> = Vec::new();
    let n = target_changes.len();
    let mut e: usize = 0;
    proof {
        assert(delays@ =~= delays_upto(s, target_changes@, 0));
    }
    while e < n
        invariant
            valid_series(s),
            s == data@,
            n == target_changes@.len(),
            events_valid(target_changes@),
            0 <= e <= n,
            delays@ == delays_upto(s, target_changes@, e as int),
            delays_in_window(delays@),
        decreases n - e,
    {
        let change = target_changes[e];
        let search_start_time = change.time_us + REACT_MIN_DELAY_US;
        let search_end_time = change.time_us + REACT_MAX_DELAY_US;
        match find_player_reaction(data, &change, search_start_time, search_end_time) {
            Some(player_reaction_time) => {
                let delay = player_reaction_time - change.time_us;
                delays.push(delay);
            },
            None => {},
        }
        e = e + 1;
    }
    delays
}

} // verus!
