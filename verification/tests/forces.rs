use airship_core::Angle;
use airship_core::Balloon;
use airship_core::FX_ONE;
use airship_core::Fin;
use airship_core::Servo;
use airship_core::Thruster;
use airship_core::Vec3;

const ONE: i64 = FX_ONE;

fn zero_angle() -> Angle {
    Angle { s: 0, c: ONE }
}

#[test]
fn thruster_scales_its_forward_direction() {
    let mut t = Thruster::new(0);
    assert_eq!(t.thrust(), 0);
    t.set_thrust(2 * ONE);
    let f = t.force(&zero_angle(), &zero_angle());
    assert_eq!(f, Vec3 { x: 0, y: 0, z: -2 * ONE });
}

#[test]
fn thruster_at_zero_emits_no_force() {
    let t = Thruster::new(0);
    let f = t.force(&Angle { s: ONE, c: 0 }, &zero_angle());
    assert_eq!(f, Vec3 { x: 0, y: 0, z: 0 });
}

#[test]
fn balloon_force_is_its_buoyancy() {
    let b = Balloon::new(Vec3 { x: 0, y: 19 * ONE, z: 0 });
    assert_eq!(b.force(), Vec3 { x: 0, y: 19 * ONE, z: 0 });
    // Constant: a second tick reads the same force.
    assert_eq!(b.force(), Vec3 { x: 0, y: 19 * ONE, z: 0 });
}

#[test]
fn fin_drag_opposes_forward_velocity() {
    let fin = Fin::new(ONE);
    assert_eq!(fin.fin_drag(), ONE);
    let forward = Vec3 { x: 0, y: 0, z: ONE };
    let velocity = Vec3 { x: 0, y: 0, z: 2 * ONE };
    let force = fin.drag_force(&forward, &velocity);
    assert_eq!(force, Vec3 { x: 0, y: 0, z: -2 * ONE });
}

#[test]
fn fin_ignores_crosswise_velocity() {
    let fin = Fin::new(ONE);
    let forward = Vec3 { x: 0, y: 0, z: ONE };
    let velocity = Vec3 { x: 5 * ONE, y: -3 * ONE, z: 0 };
    let force = fin.drag_force(&forward, &velocity);
    assert_eq!(force, Vec3 { x: 0, y: 0, z: 0 });
}

#[test]
fn servo_commands_gain_times_angle_error() {
    let servo = Servo::new(100 * ONE, 10 * ONE, 523_600);
    assert_eq!(servo.motor_target_velocity(&Vec3 { x: 0, y: 0, z: 0 }), 52_360_000);
    // At the target magnitude the command vanishes.
    assert_eq!(servo.motor_target_velocity(&Vec3 { x: 0, y: 523_600, z: 0 }), 0);
}

#[test]
fn servo_reverses_past_the_target() {
    let servo = Servo::new(100 * ONE, 10 * ONE, 523_600);
    let v = servo.motor_target_velocity(&Vec3 { x: 0, y: 1_047_200, z: 0 });
    assert_eq!(v, -52_360_000);
}
