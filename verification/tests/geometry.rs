use aim_trainer::geom::ray_sphere_intersection;
use aim_trainer::angle::angle_between_2d;
use aim_trainer::stats::calculate_angular_error;
use aim_trainer::session::reflect_velocity;
use aim_trainer::trig::heading_velocity;
use aim_trainer::vec::{Vec2I, Vec3I};

#[test]
fn ray_hits_sphere_straight_ahead() {
    let origin = Vec3I { x: 0, y: 0, z: 0 };
    let dir = Vec3I { x: 0, y: 0, z: -1000 };
    let center = Vec3I { x: 0, y: 0, z: -10000 };
    assert!(ray_sphere_intersection(origin, dir, center, 500));
}

#[test]
fn ray_misses_offset_sphere() {
    let origin = Vec3I { x: 0, y: 0, z: 0 };
    let dir = Vec3I { x: 0, y: 0, z: -1000 };
    let center = Vec3I { x: 5000, y: 0, z: -10000 };
    assert!(!ray_sphere_intersection(origin, dir, center, 500));
}

#[test]
fn angle_between_perpendicular_directions() {
    let a = Vec2I { x: 1000, y: 0 };
    let b = Vec2I { x: 0, y: 1000 };
    assert_eq!(angle_between_2d(a, b), 90);
}

#[test]
fn angle_between_identical_and_opposite() {
    let a = Vec2I { x: 1000, y: 0 };
    assert_eq!(angle_between_2d(a, a), 0);
    let b = Vec2I { x: -1000, y: 0 };
    assert_eq!(angle_between_2d(a, b), 180);
}

#[test]
fn angle_scales_large_vectors_down() {
    let a = Vec2I { x: 3000000000, y: 0 };
    let b = Vec2I { x: 0, y: 7000000000 };
    assert_eq!(angle_between_2d(a, b), 90);
}

#[test]
fn angular_error_of_diagonal_aim() {
    let target = Vec3I { x: 0, y: 0, z: -10000 };
    let aim = Vec3I { x: 0, y: 0, z: -1000 };
    assert_eq!(calculate_angular_error(target, aim), 0);
    let aim_up = Vec3I { x: 0, y: 1000, z: 0 };
    assert_eq!(calculate_angular_error(target, aim_up), 90);
}

#[test]
fn reflection_points_inward_after_boundary_hit() {
    // Velocity heading out of the volume; `u` points back toward the
    // origin of the frozen frame.
    let v = Vec3I { x: 7000, y: 0, z: 0 };
    let u = Vec3I { x: -6000, y: 0, z: -12000 };
    let d = v.x * u.x + v.y * u.y + v.z * u.z;
    assert!(d < 0);
    let r = reflect_velocity(v, u);
    let d2 = r.x * u.x + r.y * u.y + r.z * u.z;
    assert!(d2 >= -d);
}

#[test]
fn reflection_mirrors_a_head_on_velocity() {
    let v = Vec3I { x: 7000, y: 0, z: 0 };
    let u = Vec3I { x: -1000, y: 0, z: 0 };
    let r = reflect_velocity(v, u);
    assert_eq!(r, Vec3I { x: -7000, y: 0, z: 0 });
}

#[test]
fn heading_velocity_along_the_axes() {
    let east = heading_velocity(0, 7000);
    assert_eq!(east, Vec2I { x: 7000, y: 0 });
    let north = heading_velocity(90, 7000);
    assert_eq!(north, Vec2I { x: 0, y: 7000 });
    let west = heading_velocity(180, 7000);
    assert_eq!(west, Vec2I { x: -7000, y: 0 });
    let south = heading_velocity(270, 7000);
    assert_eq!(south, Vec2I { x: 0, y: -7000 });
}

#[test]
fn heading_velocity_of_a_diagonal() {
    let v = heading_velocity(45, 7000);
    // cos 45 scaled by a million is 707107; 7000 * 707107 / 1000000.
    assert_eq!(v, Vec2I { x: 4949, y: 4949 });
}

#[test]
fn angle_recovers_a_sixty_degree_pair() {
    let a = Vec2I { x: 1000, y: 0 };
    let b = Vec2I { x: 500, y: 866 };
    assert_eq!(angle_between_2d(a, b), 60);
}

#[test]
fn heading_velocity_matches_the_cosine_table() {
    // cos 60 and sin 60 scaled by a million: 500000 and 866025.
    let v = heading_velocity(60, 1000000);
    assert_eq!(v, Vec2I { x: 500000, y: 866025 });
}
