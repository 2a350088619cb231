use aim_trainer::sample::DataPoint;
use aim_trainer::session::ReactionTest;
use aim_trainer::target::analyze_results;
use aim_trainer::detect::find_target_direction_changes;
use aim_trainer::react::calculate_reaction_delays;
use aim_trainer::vec::Vec3I;

fn point(i: i64, tx: i64, ty: i64, cx: i64, cy: i64) -> DataPoint {
    DataPoint {
        time_us: i * 10000,
        target_pos: Vec3I { x: tx, y: ty, z: -15000 },
        crosshair_dir: Vec3I { x: 0, y: 0, z: -1000 },
        camera_pos: Vec3I { x: 0, y: 0, z: 0 },
        target_x: tx,
        target_y: ty,
        crosshair_x: cx,
        crosshair_y: cy,
    }
}

/// A 150-sample series at a 10 ms tick: the target heads along local X
/// at the fixed speed, turns 90 degrees at sample 60, and the crosshair
/// turns toward the target's new heading starting at sample 75.
fn flip_series() -> Vec<DataPoint> {
    let mut data = Vec::new();
    for i in 0..150i64 {
        let tx = 70 * i.min(60);
        let ty = 70 * (i - 60).max(0);
        let cx = i;
        let cy = (i - 75).max(0);
        data.push(point(i, tx, ty, cx, cy));
    }
    data
}

/// The same motion with a second 90-degree turn at sample 100, and a
/// crosshair that never turns.
fn double_flip_series() -> Vec<DataPoint> {
    let mut data = Vec::new();
    for i in 0..150i64 {
        let tx = 70 * (i.min(60) - (i - 100).max(0));
        let ty = 70 * (i.min(100) - 60).max(0);
        data.push(point(i, tx, ty, i, 0));
    }
    data
}

#[test]
fn one_flip_yields_one_event_and_one_delay() {
    let mut test: ReactionTest = Default::default();
    test.data = flip_series();
    analyze_results(&mut test);
    assert_eq!(test.count_directions, 1);
    assert_eq!(test.react_directions, 1);
    // The event lands where the smoothing window first sees the turn, at
    // sample 57; the reaction is picked up at sample 74.
    assert_eq!(test.average_delay_us, 170000);
    assert_eq!(test.median_delay_us, 170000);
}

#[test]
fn detected_event_lies_near_the_flip() {
    let data = flip_series();
    let events = find_target_direction_changes(&data);
    assert_eq!(events.len(), 1);
    let t = events[0].time_us;
    assert!(550000 <= t && t <= 650000);
}

#[test]
fn events_are_deduplicated_within_eighty_milliseconds() {
    let data = double_flip_series();
    let events = find_target_direction_changes(&data);
    assert_eq!(events.len(), 2);
    for a in 0..events.len() {
        for b in 0..events.len() {
            if a != b {
                assert!((events[a].time_us - events[b].time_us).abs() >= 80000);
            }
        }
    }
}

#[test]
fn delays_lie_inside_the_search_window() {
    let data = flip_series();
    let events = find_target_direction_changes(&data);
    let delays = calculate_reaction_delays(&data, &events);
    assert_eq!(delays.len(), 1);
    for d in &delays {
        assert!(70000 <= *d && *d <= 800000);
    }
}

#[test]
fn too_few_samples_leave_statistics_at_defaults() {
    let mut test: ReactionTest = Default::default();
    let mut data = Vec::new();
    for i in 0..10i64 {
        data.push(point(i, 70 * i, 0, i, 0));
    }
    test.data = data;
    analyze_results(&mut test);
    assert_eq!(test.count_directions, 0);
    assert_eq!(test.react_directions, 0);
    assert_eq!(test.average_delay_us, 0);
    assert_eq!(test.median_delay_us, 0);
    assert_eq!(test.rms_distance_deg, 0);
    assert_eq!(test.peak_angular_error_deg, 0);
}

#[test]
fn below_hundred_samples_skips_delay_analysis_only() {
    let mut test: ReactionTest = Default::default();
    let mut data = Vec::new();
    for i in 0..80i64 {
        let tx = 70 * i.min(40);
        let ty = 70 * (i - 40).max(0);
        data.push(point(i, tx, ty, i, 0));
    }
    test.data = data;
    analyze_results(&mut test);
    // Delay statistics untouched, angular statistics computed.
    assert_eq!(test.count_directions, 0);
    assert_eq!(test.react_directions, 0);
    assert_eq!(test.average_delay_us, 0);
    assert!(test.peak_angular_error_deg > 0);
}

#[test]
fn a_steady_target_yields_no_events() {
    let mut data = Vec::new();
    for i in 0..150i64 {
        data.push(point(i, 70 * i, 0, i, 0));
    }
    let events = find_target_direction_changes(&data);
    assert_eq!(events.len(), 0);
}

#[test]
fn event_count_is_recorded_even_without_matched_reactions() {
    let mut test: ReactionTest = Default::default();
    test.count_directions = 7;
    test.data = double_flip_series();
    analyze_results(&mut test);
    // Two turns detected; the crosshair never turned, so no delay
    // matched and the delay statistics stay at their defaults.
    assert_eq!(test.count_directions, 2);
    assert_eq!(test.react_directions, 0);
    assert_eq!(test.average_delay_us, 0);
    assert_eq!(test.median_delay_us, 0);
}
