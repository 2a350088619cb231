//! Target direction-change detection: compare the smoothed direction
//! before and after each sample; record an event where the turn is at
//! least the minimum angle, unless another event lies within the
//! deduplication window.

use vstd::prelude::*;
use crate::math::abs;
use crate::sample::{DataPoint, DirectionChange, valid_series, normalize_milli,
    normalize_milli_spec, SAMPLE_TIME_LIMIT};
use crate::smooth::{smoothed_target_dir_spec, calculate_smoothed_target_direction};
use crate::angle::{angle2_spec, angle_between_2d};

verus! {

/// The smoothing window, in samples, on each side of a candidate.
pub const DETECT_WINDOW: usize = 7;

/// Two events closer than this are one event (microseconds).
pub const DEDUP_WINDOW_US: i64 = 80000;

/// The smallest turn that counts as a direction change (degrees).
pub const MIN_TURN_DEG: u64 = 35;

/// The slowest smoothed motion the detector considers, squared
/// (0.2 units per second, as 200 milliunits per second, squared).
pub const MIN_SMOOTHED_NORM2: i128 = 40000;

/// Whether a direction change is detected at sample `i`: both smoothed
/// directions are fast enough and the angle between them is at least the
/// minimum turn.
pub open spec fn detect_at(s: Seq<DataPoint>, i: int) -> bool {
    let old_dir = smoothed_target_dir_spec(s, i - 7, i);
    let new_dir = smoothed_target_dir_spec(s, i, i + 7);
    &&& old_dir.norm2_spec() >= 40000
    &&& new_dir.norm2_spec() >= 40000
    &&& angle2_spec(old_dir, new_dir) >= 35
}

/// The event recorded at sample `i`: its timestamp and the normalized new
/// direction.
pub open spec fn event_at(s: Seq<DataPoint>, i: int) -> DirectionChange {
    DirectionChange {
        time_us: s[i].time_us,
        target_new_direction: normalize_milli_spec(smoothed_target_dir_spec(s, i, i + 7)),
    }
}

/// Whether some recorded event lies within the deduplication window of
/// time `t`.
pub open spec fn is_duplicate(evs: Seq<DirectionChange>, t: int) -> bool {
    exists|k: int| 0 <= k < evs.len() && #[trigger] abs(evs[k].time_us - t) < DEDUP_WINDOW_US
}

/// The events recorded after scanning candidates below index `i`.
pub open spec fn changes_upto(s: Seq<DataPoint>, i: int) -> Seq<DirectionChange>
    decreases i,
{
    if i <= 7 {
        Seq::empty()
    } else {
        let prev = changes_upto(s, i - 1);
        if detect_at(s, i - 1) && !is_duplicate(prev, s[i - 1].time_us as int) {
            prev.push(event_at(s, i - 1))
        } else {
            prev
        }
    }
}

/// The events of a whole series: candidates run from the window to the
/// window before the end.
pub open spec fn changes_spec(s: Seq<DataPoint>) -> Seq<DirectionChange> {
    changes_upto(s, s.len() - 7)
}

/// No two events lie within the deduplication window of each other.
pub open spec fn well_separated(evs: Seq<DirectionChange>) -> bool {
    forall|k: int, l: int|
        0 <= k < l < evs.len() ==> #[trigger] abs(evs[k].time_us - evs[l].time_us)
            >= DEDUP_WINDOW_US
}

/// Every event carries a valid sample timestamp and a direction of
/// milliunit scale.
pub open spec fn events_valid(evs: Seq<DirectionChange>) -> bool {
    forall|k: int|
        0 <= k < evs.len() ==> 0 <= (#[trigger] evs[k]).time_us <= SAMPLE_TIME_LIMIT
            && evs[k].target_new_direction.bounded(1000)
}

/// Find every significant target direction change of a recorded series,
/// deduplicated: no two of the returned events lie within 80 ms of each
/// other.
pub fn find_target_direction_changes(data: &Vec<DataPoint>) -> (r: Vec<DirectionChange>)
    requires
        valid_series(data@),
    ensures
        r@ == changes_spec(data@),
        well_separated(r@),
        events_valid(r@),
{
    let n = data.len();
    let mut changes: Vec<DirectionChange> = Vec::new();
    if n < 15 {
        proof {
            assert(changes@ =~= changes_spec(data@));
        }
        return changes;
    }
    let mut i: usize = 7;
    while i < n - 7
        invariant
            valid_series(data@),
            n == data@.len(),
            15 <= n,
            7 <= i <= n - 7,
            changes@ == changes_upto(data@, i as int),
            well_separated(changes@),
            events_valid(changes@),
        decreases n - 7 - i,
    {
        let old_dir = calculate_smoothed_target_direction(data, i - 7, i);
        let new_dir = calculate_smoothed_target_direction(data, i, i + 7);
        let mut significant = false;
        if old_dir.norm2() >= MIN_SMOOTHED_NORM2 && new_dir.norm2() >= MIN_SMOOTHED_NORM2 {
            let ang = angle_between_2d(old_dir, new_dir);
            if ang >= MIN_TURN_DEG {
                significant = true;
            }
        }
        proof {
            assert(significant == detect_at(data@, i as int));
        }
        if significant {
            let t = data[i].time_us;
            let mut dup = false;
            let mut k: usize = 0;
            while k < changes.len()
                invariant
                    events_valid(changes@),
                    0 <= t <= SAMPLE_TIME_LIMIT,
                    0 <= k <= changes@.len(),
                    dup == exists|j: int|
                        0 <= j < k && #[trigger] abs(changes@[j].time_us - t) < DEDUP_WINDOW_US,
                decreases changes@.len() - k,
            {
                let d = changes[k].time_us - t;
                let m = if d >= 0 {
                    d
                } else {
                    -d
                };
                proof {
                    assert(m == abs(changes@[k as int].time_us - t as int));
                }
                if m < DEDUP_WINDOW_US {
                    dup = true;
                }
                k = k + 1;
            }
            proof {
                assert(dup == is_duplicate(changes@, t as int));
            }
            if !dup {
                let nd = normalize_milli(new_dir);
                let ev = DirectionChange { time_us: t, target_new_direction: nd };
                proof {
                    assert(forall|j: int|
                        0 <= j < changes@.len() ==> #[trigger] abs(changes@[j].time_us - t)
                            >= DEDUP_WINDOW_US);
                }
                changes.push(ev);
            }
        }
        i = i + 1;
    }
    changes
}

} // verus!
