//! The tick entry points and the post-trial analysis driver: advance the
//! trial once per simulation step, and on completion derive the reaction
//! and accuracy statistics from the recorded series.

use vstd::prelude::*;
use crate::vec::Vec3I;
use crate::sample::{SAMPLE_TIME_LIMIT, SERIES_LEN_LIMIT, DataPoint, DirectionChange};
use crate::session::{ReactionTest, tick_post, advance_running_tick, in_bounds, TEST_DURATION_US,
    MAX_TICK_DT_US, SESSION_POS_LIMIT, TARGET_SIZE_MILLI, project_dir_spec};
use crate::geom::ray_hits_sphere;
use crate::detect::{changes_spec, changes_upto, find_target_direction_changes};
use crate::react::{delays_spec, delays_upto, calculate_reaction_delays};
use crate::stats::{mean_delay_spec, median_delay_spec, mean_error_spec, peak_error_spec,
    mean_delay_us, median_delay_us, calculate_average_angular_error_simple,
    calculate_peak_angular_error_simple};
use crate::rng::rand_u64_in;

verus! {

/// The fewest samples on which any statistics are computed.
pub const MIN_SAMPLES_FOR_ANALYSIS: usize = 50;

/// The fewest samples on which direction-change and delay analysis runs.
pub const MIN_SAMPLES_FOR_DELAYS: usize = 100;

/// At most one event is recorded per scanned candidate.
proof fn lemma_changes_len(s: Seq<DataPoint>, i: int)
    ensures
        changes_upto(s, i).len() <= (if i >= 7 {
            i - 7
        } else {
            0
        }),
    decreases i,
{
    if i > 7 {
        lemma_changes_len(s, i - 1);
    }
}

/// At most one delay is recorded per event.
proof fn lemma_delays_len(s: Seq<DataPoint>, evs: Seq<DirectionChange>, i: int)
    ensures
        delays_upto(s, evs, i).len() <= (if i >= 0 {
            i
        } else {
            0
        }),
    decreases i,
{
    if i > 0 {
        lemma_delays_len(s, evs, i - 1);
    }
}

/// How the delay statistics relate to the recorded series after the
/// delay analysis: below the sample floor they are untouched; otherwise
/// the detected-event count is always written, and the mean, the median
/// and the matched count are written only when some reaction matched.
pub open spec fn delay_stats_post(o: ReactionTest, t: ReactionTest) -> bool {
    let d = o.data@;
    if d.len() < MIN_SAMPLES_FOR_DELAYS {
        &&& t.average_delay_us == o.average_delay_us
        &&& t.median_delay_us == o.median_delay_us
        &&& t.count_directions == o.count_directions
        &&& t.react_directions == o.react_directions
    } else {
        let evs = changes_spec(d);
        let ds = delays_spec(d, evs);
        if ds.len() > 0 {
            &&& t.average_delay_us == mean_delay_spec(ds)
            &&& t.median_delay_us == median_delay_spec(ds)
            &&& t.react_directions == ds.len()
            &&& t.count_directions == evs.len()
        } else {
            &&& t.average_delay_us == o.average_delay_us
            &&& t.median_delay_us == o.median_delay_us
            &&& t.count_directions == evs.len()
            &&& t.react_directions == o.react_directions
        }
    }
}

/// How all six statistics fields relate to the recorded series after the
/// full analysis: below the sample floor everything is untouched;
/// otherwise the angular-error statistics cover every sample and the
/// delay statistics follow the delay analysis.
pub open spec fn analysis_post(o: ReactionTest, t: ReactionTest) -> bool {
    let d = o.data@;
    if d.len() < MIN_SAMPLES_FOR_ANALYSIS {
        &&& t.rms_distance_deg == o.rms_distance_deg
        &&& t.peak_angular_error_deg == o.peak_angular_error_deg
        &&& t.average_delay_us == o.average_delay_us
        &&& t.median_delay_us == o.median_delay_us
        &&& t.count_directions == o.count_directions
        &&& t.react_directions == o.react_directions
    } else {
        &&& t.rms_distance_deg == mean_error_spec(d)
        &&& t.peak_angular_error_deg == peak_error_spec(d)
        &&& delay_stats_post(o, t)
    }
}

/// Only the six statistics fields may differ between `o` and `t`.
pub open spec fn only_stats_differ(o: ReactionTest, t: ReactionTest) -> bool {
    t == (ReactionTest {
        rms_distance_deg: t.rms_distance_deg,
        peak_angular_error_deg: t.peak_angular_error_deg,
        average_delay_us: t.average_delay_us,
        median_delay_us: t.median_delay_us,
        count_directions: t.count_directions,
        react_directions: t.react_directions,
        ..o
    })
}

/// Detect direction changes, match reactions, and write the delay
/// statistics. A series below the floor leaves them untouched; above it
/// the detected-event count is always recorded, while the mean, the
/// median and the matched count are recorded only when some reaction
/// matched.
pub fn analyze_reaction_delay(test: &mut ReactionTest)
    requires
        old(test).inv(),
    ensures
        final(test).inv(),
        only_stats_differ(*old(test), *final(test)),
        final(test).rms_distance_deg == old(test).rms_distance_deg,
        final(test).peak_angular_error_deg == old(test).peak_angular_error_deg,
        delay_stats_post(*old(test), *final(test)),
{
    if test.data.len() < MIN_SAMPLES_FOR_DELAYS {
        return;
    }
    let target_direction_changes = find_target_direction_changes(&test.data);
    let reaction_delays = calculate_reaction_delays(&test.data, &target_direction_changes);
    test.count_directions = target_direction_changes.len();
    if reaction_delays.len() > 0 {
        proof {
            lemma_changes_len(test.data@, test.data@.len() - 7);
            lemma_delays_len(test.data@, target_direction_changes@, target_direction_changes@.len() as int);
        }
        test.average_delay_us = mean_delay_us(&reaction_delays);
        test.median_delay_us = median_delay_us(&reaction_delays);
        test.react_directions = reaction_delays.len();
    }
}

/// The full post-trial analysis: with fewer than fifty samples every
/// statistic stays at its default; otherwise the delay analysis runs and
/// the angular-error statistics are computed over every sample.
pub fn analyze_results(test: &mut ReactionTest)
    requires
        old(test).inv(),
    ensures
        final(test).inv(),
        only_stats_differ(*old(test), *final(test)),
        analysis_post(*old(test), *final(test)),
{
    if test.data.len() < MIN_SAMPLES_FOR_ANALYSIS {
        return;
    }
    analyze_reaction_delay(test);
    test.rms_distance_deg = calculate_average_angular_error_simple(&test.data);
    test.peak_angular_error_deg = calculate_peak_angular_error_simple(&test.data);
}

/// End the trial: leave the running phase, mark it completed, and run
/// the analysis on the recorded series.
pub fn finish_test(test: &mut ReactionTest)
    requires
        old(test).inv(),
    ensures
        final(test).inv(),
        !final(test).is_running,
        final(test).test_completed,
        final(test).data == old(test).data,
        analysis_post(*old(test), *final(test)),
        *final(test) == (ReactionTest {
            is_running: false,
            test_completed: true,
            rms_distance_deg: final(test).rms_distance_deg,
            peak_angular_error_deg: final(test).peak_angular_error_deg,
            average_delay_us: final(test).average_delay_us,
            median_delay_us: final(test).median_delay_us,
            count_directions: final(test).count_directions,
            react_directions: final(test).react_directions,
            ..*old(test)
        }),
{
    test.is_running = false;
    test.test_completed = true;
    analyze_results(test);
}

/// One simulation tick with the randomness injected: does nothing when
/// idle or completed; ends the trial and runs the analysis once the
/// trial duration has elapsed; otherwise fires at the cadence, moves the
/// target, and records a sample. The result reports a shot: whether it
/// hit, or None when none was due.
pub fn update_target_with(test: &mut ReactionTest, dt_us: i64, now_us: i64, camera_position:
    Vec3I, turn_offset_deg: u64, interval_us: i64) -> (fired: Option<bool>)
    requires
        old(test).inv(),
        0 <= dt_us <= MAX_TICK_DT_US,
        camera_position.bounded(SESSION_POS_LIMIT as int),
        turn_offset_deg < 270,
        200000 <= interval_us < 500000,
        old(test).hits < u32::MAX,
        old(test).misses < u32::MAX,
        old(test).data@.len() < SERIES_LEN_LIMIT,
        old(test).is_running ==> old(test).start_time_us <= now_us <= SAMPLE_TIME_LIMIT,
        old(test).is_running && old(test).data@.len() > 0 ==> now_us - old(test).start_time_us
            >= old(test).data@.last().time_us,
    ensures
        final(test).inv(),
        !old(test).is_running ==> *final(test) == *old(test) && fired is None,
        old(test).is_running && now_us - old(test).start_time_us >= TEST_DURATION_US ==> {
            &&& !final(test).is_running
            &&& final(test).test_completed
            &&& final(test).data == old(test).data
            &&& analysis_post(*old(test), *final(test))
            &&& fired is None
        },
        old(test).is_running && now_us - old(test).start_time_us < TEST_DURATION_US ==> {
            &&& final(test).is_running
            &&& tick_post(
                *old(test),
                dt_us as int,
                now_us as int,
                camera_position,
                turn_offset_deg as int,
                interval_us as int,
                *final(test),
                fired,
            )
        },
{
    if !test.is_running {
        return None;
    }
    let current_time = now_us - test.start_time_us;
    if current_time >= TEST_DURATION_US {
        if !test.test_completed {
            finish_test(test);
        }
        return None;
    }
    advance_running_tick(test, dt_us, now_us, camera_position, turn_offset_deg, interval_us)
}

/// One simulation tick, drawing the redirection randomness from the
/// process-wide generator: the turn offset uniformly below 270 degrees
/// and the next change interval uniformly between 0.2 s and 0.5 s.
/// Whatever is drawn: an idle session is untouched, an elapsed trial is
/// completed and analyzed, and a running tick fires its shot, appends
/// one sample with its deterministic fields, and relates the whole
/// state to the old one by the tick relation at some admissible draw.
pub fn update_target(test: &mut ReactionTest, dt_us: i64, now_us: i64, camera_position: Vec3I)
    -> (fired: Option<bool>)
    requires
        old(test).inv(),
        0 <= dt_us <= MAX_TICK_DT_US,
        camera_position.bounded(SESSION_POS_LIMIT as int),
        old(test).hits < u32::MAX,
        old(test).misses < u32::MAX,
        old(test).data@.len() < SERIES_LEN_LIMIT,
        old(test).is_running ==> old(test).start_time_us <= now_us <= SAMPLE_TIME_LIMIT,
        old(test).is_running && old(test).data@.len() > 0 ==> now_us - old(test).start_time_us
            >= old(test).data@.last().time_us,
    ensures
        final(test).inv(),
        !old(test).is_running ==> *final(test) == *old(test) && fired is None,
        old(test).is_running && now_us - old(test).start_time_us >= TEST_DURATION_US ==> {
            &&& !final(test).is_running
            &&& final(test).test_completed
            &&& final(test).data == old(test).data
            &&& analysis_post(*old(test), *final(test))
            &&& fired is None
        },
        old(test).is_running && now_us - old(test).start_time_us < TEST_DURATION_US ==> ({
            let elapsed = now_us - old(test).start_time_us;
            let shot_due = elapsed - old(test).last_shot_time_us >= old(test).shot_interval_us;
            let hit = ray_hits_sphere(
                camera_position,
                old(test).crosshair_direction,
                old(test).target_world_spec(),
                TARGET_SIZE_MILLI as int,
            );
            &&& final(test).is_running
            &&& !final(test).test_completed
            &&& fired == (if shot_due {
                Some(hit)
            } else {
                Option::<bool>::None
            })
            &&& final(test).hits == (if shot_due && hit {
                old(test).hits + 1
            } else {
                old(test).hits as int
            })
            &&& final(test).misses == (if shot_due && !hit {
                old(test).misses + 1
            } else {
                old(test).misses as int
            })
            &&& final(test).last_shot_time_us == (if shot_due {
                elapsed
            } else {
                old(test).last_shot_time_us as int
            })
            &&& final(test).data@.len() == old(test).data@.len() + 1
            &&& final(test).data@.take(old(test).data@.len() as int) == old(test).data@
            &&& final(test).data@.last().time_us == elapsed
            &&& final(test).data@.last().crosshair_dir == old(test).crosshair_direction
            &&& final(test).data@.last().camera_pos == camera_position
            &&& final(test).data@.last().target_x == final(test).target_local.x
            &&& final(test).data@.last().target_y == final(test).target_local.y
            &&& final(test).data@.last().target_pos == final(test).target_world_spec()
            &&& final(test).data@.last().crosshair_x == project_dir_spec(
                old(test).basis_right,
                old(test).crosshair_direction,
            )
            &&& final(test).data@.last().crosshair_y == project_dir_spec(
                old(test).basis_up,
                old(test).crosshair_direction,
            )
            &&& final(test).start_time_us == old(test).start_time_us
            &&& in_bounds(final(test).target_local)
            &&& exists|off: int, iv: int|
                0 <= off < 270 && 200000 <= iv < 500000 && #[trigger] tick_post(
                    *old(test),
                    dt_us as int,
                    now_us as int,
                    camera_position,
                    off,
                    iv,
                    *final(test),
                    fired,
                )
        }),
{
    let turn_offset_deg = rand_u64_in(0, 270);
    let interval_us = rand_u64_in(200000, 500000) as i64;
    let fired = update_target_with(
        test,
        dt_us,
        now_us,
        camera_position,
        turn_offset_deg,
        interval_us,
    );
    proof {
        if old(test).is_running && now_us - old(test).start_time_us < TEST_DURATION_US {
            assert(tick_post(
                *old(test),
                dt_us as int,
                now_us as int,
                camera_position,
                turn_offset_deg as int,
                interval_us as int,
                *test,
                fired,
            ));
            assert(test.data@.take(old(test).data@.len() as int) =~= old(test).data@);
            assert(test.data@.last() == crate::session::tick_sample(
                *old(test),
                now_us - old(test).start_time_us,
                camera_position,
                test.target_local,
            ));
            crate::session::lemma_project_dir_bounded(
                old(test).basis_right,
                old(test).crosshair_direction,
            );
            crate::session::lemma_project_dir_bounded(
                old(test).basis_up,
                old(test).crosshair_direction,
            );
            assert(test.camera_origin == old(test).camera_origin);
            assert(test.basis_right == old(test).basis_right);
            assert(test.basis_up == old(test).basis_up);
            assert(test.basis_forward == old(test).basis_forward);
        }
    }
    fired
}

/// The boundary law: a well-formed session always holds its target's
/// local position inside the bounding volume.
pub proof fn lemma_target_in_bounds(t: ReactionTest)
    requires
        t.inv(),
    ensures
        in_bounds(t.target_local),
{
}

} // verus!
