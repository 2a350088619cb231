use aim_trainer::session::{ReactionTest, set_camera_pose, start_test, reset_test,
    TARGET_BOUND_X_MILLI, TARGET_BOUND_Y_MILLI, TARGET_BOUND_Z_MIN_MILLI,
    TARGET_BOUND_Z_MAX_MILLI};
use aim_trainer::target::{update_target, update_target_with};
use aim_trainer::vec::Vec3I;

fn fresh_session() -> ReactionTest {
    let mut test: ReactionTest = Default::default();
    set_camera_pose(
        &mut test,
        Vec3I { x: 0, y: 0, z: 0 },
        Vec3I { x: 1000, y: 0, z: 0 },
        Vec3I { x: 0, y: 1000, z: 0 },
        Vec3I { x: 0, y: 0, z: -1000 },
    );
    test
}

fn in_volume(test: &ReactionTest) -> bool {
    let p = test.target_local;
    -TARGET_BOUND_X_MILLI <= p.x && p.x <= TARGET_BOUND_X_MILLI && -TARGET_BOUND_Y_MILLI <= p.y
        && p.y <= TARGET_BOUND_Y_MILLI && TARGET_BOUND_Z_MIN_MILLI <= p.z
        && p.z <= TARGET_BOUND_Z_MAX_MILLI
}

#[test]
fn target_stays_in_volume_for_every_tick() {
    let mut test = fresh_session();
    start_test(&mut test, 0);
    let cam = Vec3I { x: 0, y: 0, z: 0 };
    for i in 1..=1500i64 {
        update_target_with(&mut test, 10000, i * 10000, cam, 133, 250000);
        assert!(in_volume(&test));
    }
}

#[test]
fn redirection_turns_by_at_least_the_minimum() {
    let mut test = fresh_session();
    start_test(&mut test, 0);
    let cam = Vec3I { x: 0, y: 0, z: 0 };
    let mut turns = 0;
    let mut prev_heading = test.target_heading_deg as i64;
    for i in 1..=300i64 {
        update_target_with(&mut test, 10000, i * 10000, cam, 200, 300000);
        let h = test.target_heading_deg as i64;
        if h != prev_heading {
            let diff = (h - prev_heading + 360) % 360;
            assert!(diff >= 45 && diff <= 315);
            turns += 1;
        }
        prev_heading = h;
    }
    assert!(turns > 0);
}

#[test]
fn trial_completes_after_twenty_seconds() {
    let mut test = fresh_session();
    start_test(&mut test, 0);
    assert!(test.is_running);
    let cam = Vec3I { x: 0, y: 0, z: 0 };
    for i in 1..=2001i64 {
        update_target_with(&mut test, 10000, i * 10000, cam, 90, 220000);
    }
    assert!(!test.is_running);
    assert!(test.test_completed);
    assert_eq!(test.data.len(), 1999);
    // Shots land every fourth 10 ms tick once the cadence has elapsed:
    // at 40 ms, 80 ms, ... up to 19.96 s.
    assert_eq!(test.hits + test.misses, 499);
    // The crosshair never turned, so no reaction was ever matched.
    assert_eq!(test.react_directions, 0);
    assert_eq!(test.average_delay_us, 0);
    assert!(test.peak_angular_error_deg <= 180);
}

#[test]
fn reset_returns_to_idle() {
    let mut test = fresh_session();
    start_test(&mut test, 5000000);
    let cam = Vec3I { x: 0, y: 0, z: 0 };
    update_target_with(&mut test, 10000, 5010000, cam, 10, 200000);
    assert!(test.is_running);
    assert!(test.data.len() > 0);
    reset_test(&mut test);
    assert!(!test.is_running);
    assert!(!test.test_completed);
    assert_eq!(test.data.len(), 0);
    assert_eq!(test.hits, 0);
    assert_eq!(test.misses, 0);
}

#[test]
fn restart_after_completion_runs_again() {
    let mut test = fresh_session();
    start_test(&mut test, 0);
    let cam = Vec3I { x: 0, y: 0, z: 0 };
    for i in 1..=2000i64 {
        update_target_with(&mut test, 10000, i * 10000, cam, 45, 210000);
    }
    assert!(test.test_completed);
    start_test(&mut test, 30000000);
    assert!(test.is_running);
    assert!(!test.test_completed);
    assert_eq!(test.data.len(), 0);
}

#[test]
fn random_ticks_keep_the_session_sound() {
    let mut test = fresh_session();
    start_test(&mut test, 0);
    let cam = Vec3I { x: 0, y: 0, z: 0 };
    for i in 1..=400i64 {
        update_target(&mut test, 10000, i * 10000, cam);
        assert!(in_volume(&test));
    }
    assert!(test.is_running);
    assert_eq!(test.data.len(), 400);
}

#[test]
fn idle_session_ignores_ticks() {
    let mut test = fresh_session();
    let cam = Vec3I { x: 0, y: 0, z: 0 };
    let fired = update_target(&mut test, 10000, 123456, cam);
    assert!(fired.is_none());
    assert_eq!(test.data.len(), 0);
    assert!(!test.is_running);
}

#[test]
fn starting_a_trial_zeroes_the_counters() {
    let mut test = fresh_session();
    start_test(&mut test, 0);
    let cam = Vec3I { x: 0, y: 0, z: 0 };
    for i in 1..=200i64 {
        update_target_with(&mut test, 10000, i * 10000, cam, 60, 240000);
    }
    assert!(test.hits + test.misses > 0);
    start_test(&mut test, 3000000);
    assert_eq!(test.hits, 0);
    assert_eq!(test.misses, 0);
    assert_eq!(test.last_shot_time_us, 0);
}
