use airship_core::Angle;
use airship_core::FX_ONE;
use airship_core::Quat;
use airship_core::Vec3;
use airship_core::euler_to_dir_godot;
use airship_core::fx_mul;
use airship_core::generate_ray_dirs;
use airship_core::quaternion_to_dir_godot;

const ONE: i64 = FX_ONE;

fn zero_angle() -> Angle {
    Angle { s: 0, c: ONE }
}

#[test]
fn fx_mul_exact_products() {
    assert_eq!(fx_mul(2 * ONE, 3 * ONE), 6 * ONE);
    assert_eq!(fx_mul(0, 5 * ONE), 0);
    assert_eq!(fx_mul(-2 * ONE, 3 * ONE), -6 * ONE);
}

#[test]
fn fx_mul_truncates_toward_zero() {
    // 1e-6 * 1e-6 rounds to zero, from either side.
    assert_eq!(fx_mul(1, 1), 0);
    assert_eq!(fx_mul(-1, 1), 0);
    // -1.5 * 1.000001 = -1.5000015, truncated toward zero.
    assert_eq!(fx_mul(-1_500_000, 1_000_001), -1_500_001);
}

#[test]
fn euler_dir_at_rest_points_backward() {
    let d = euler_to_dir_godot(&zero_angle(), &zero_angle());
    assert_eq!(d, Vec3 { x: 0, y: 0, z: -ONE });
}

#[test]
fn euler_dir_quarter_turns() {
    let quarter = Angle { s: ONE, c: 0 };
    // Yaw 90 degrees: forward swings to the negative X axis.
    let d = euler_to_dir_godot(&zero_angle(), &quarter);
    assert_eq!(d, Vec3 { x: -ONE, y: 0, z: 0 });
    // Pitch 90 degrees: forward points straight up.
    let u = euler_to_dir_godot(&quarter, &zero_angle());
    assert_eq!(u, Vec3 { x: 0, y: ONE, z: 0 });
}

#[test]
fn identity_quaternion_preserves_vectors() {
    let q = Quat::identity();
    let v = Vec3 { x: 17, y: -4 * ONE, z: 123_456_789 };
    assert_eq!(q.rotate(&v), v);
}

#[test]
fn quaternion_dir_normalizes_first() {
    // Twice the identity quaternion still names the identity rotation.
    let q = Quat { x: 0, y: 0, z: 0, w: 2 * ONE };
    let d = quaternion_to_dir_godot(&q);
    assert_eq!(d, Vec3 { x: 0, y: 0, z: -ONE });
}

#[test]
fn half_turn_about_y_flips_forward() {
    // Half-angle 90 degrees builds the 180-degree rotation about Y.
    let q = Quat::from_half_angles(&zero_angle(), &Angle { s: ONE, c: 0 });
    assert_eq!(q, Quat { x: 0, y: ONE, z: 0, w: 0 });
    let d = q.rotate(&Vec3 { x: 0, y: 0, z: -ONE });
    assert_eq!(d, Vec3 { x: 0, y: 0, z: ONE });
}

#[test]
fn norm_of_pythagorean_triple() {
    let v = Vec3 { x: 3 * ONE, y: 4 * ONE, z: 0 };
    assert_eq!(v.norm(), 5 * ONE);
    let w = Vec3 { x: 0, y: 0, z: 0 };
    assert_eq!(w.norm(), 0);
}

#[test]
fn fan_of_zero_angles_is_base_forward() {
    let forward = Vec3 { x: 1000 * ONE, y: 0, z: 0 };
    let dirs = generate_ray_dirs(&forward, &vec![zero_angle()], &vec![zero_angle()]);
    assert_eq!(dirs.len(), 1);
    assert_eq!(dirs[0], forward);
}

#[test]
fn fan_is_row_major_pitch_outer_yaw_inner() {
    let forward = Vec3 { x: 0, y: 0, z: -ONE };
    let half_turn = Angle { s: ONE, c: 0 };
    let dirs = generate_ray_dirs(&forward, &vec![zero_angle()], &vec![zero_angle(), half_turn]);
    assert_eq!(dirs.len(), 2);
    assert_eq!(dirs[0], forward);
    assert_eq!(dirs[1], Vec3 { x: 0, y: 0, z: ONE });
}

#[test]
fn fan_size_is_cartesian_product() {
    let forward = Vec3 { x: 1000 * ONE, y: 0, z: 0 };
    let pitches = vec![zero_angle(), Angle { s: ONE, c: 0 }, Angle { s: -ONE, c: 0 }];
    let yaws = vec![zero_angle(), Angle { s: ONE, c: 0 }];
    let dirs = generate_ray_dirs(&forward, &pitches, &yaws);
    assert_eq!(dirs.len(), 6);
}
