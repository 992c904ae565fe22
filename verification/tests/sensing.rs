use airship_core::Angle;
use airship_core::FX_ONE;
use airship_core::Frame;
use airship_core::RayHit;
use airship_core::RaySensorSuite;
use airship_core::Vec3;

const ONE: i64 = FX_ONE;

fn zero_angle() -> Angle {
    Angle { s: 0, c: ONE }
}

fn identity_frame(offset: Vec3) -> Frame {
    Frame { yaw: zero_angle(), pitch: zero_angle(), roll: zero_angle(), offset }
}

#[test]
fn suite_starts_with_zeroed_records() {
    let suite = RaySensorSuite::new(vec![Vec3 { x: 0, y: 0, z: -ONE }]);
    assert_eq!(suite.ray_count(), 1);
    let rec = suite.record_at(0);
    assert_eq!(rec.position, Vec3 { x: 0, y: 0, z: 0 });
    assert_eq!(rec.normal, Vec3 { x: 0, y: 0, z: 0 });
    assert_eq!(rec.distance, 0);
}

#[test]
fn world_targets_subtract_the_frame_offset() {
    let suite = RaySensorSuite::new(vec![Vec3 { x: 0, y: 0, z: -ONE }]);
    let frame = identity_frame(Vec3 { x: ONE, y: 2 * ONE, z: 3 * ONE });
    let targets = suite.world_targets(&frame);
    assert_eq!(targets.len(), 1);
    assert_eq!(targets[0], Vec3 { x: -ONE, y: -2 * ONE, z: -4 * ONE });
}

#[test]
fn world_targets_apply_yaw_correction() {
    // Yaw correction of 90 degrees swings (0, 0, -1) to (-1, 0, 0).
    let suite = RaySensorSuite::new(vec![Vec3 { x: 0, y: 0, z: -ONE }]);
    let frame = Frame {
        yaw: Angle { s: ONE, c: 0 },
        pitch: zero_angle(),
        roll: zero_angle(),
        offset: Vec3 { x: 0, y: 0, z: 0 },
    };
    let targets = suite.world_targets(&frame);
    assert_eq!(targets[0], Vec3 { x: -ONE, y: 0, z: 0 });
}

#[test]
fn hit_overwrites_record_and_distance() {
    let mut suite = RaySensorSuite::new(vec![Vec3 { x: 0, y: 0, z: -ONE }]);
    let origin = Vec3 { x: 0, y: 0, z: 0 };
    let hit = RayHit {
        position: Vec3 { x: 0, y: 0, z: -10 * ONE },
        normal: Vec3 { x: 0, y: ONE, z: 0 },
    };
    suite.record_results(&origin, &vec![Some(hit)]);
    let rec = suite.record_at(0);
    assert_eq!(rec.position, Vec3 { x: 0, y: 0, z: -10 * ONE });
    assert_eq!(rec.normal, Vec3 { x: 0, y: ONE, z: 0 });
    assert_eq!(rec.distance, 10 * ONE);
}

#[test]
fn miss_holds_last_value() {
    let mut suite = RaySensorSuite::new(vec![Vec3 { x: 0, y: 0, z: -ONE }]);
    let origin1 = Vec3 { x: 0, y: 0, z: 0 };
    let hit = RayHit {
        position: Vec3 { x: 3 * ONE, y: 4 * ONE, z: 0 },
        normal: Vec3 { x: 0, y: 0, z: ONE },
    };
    suite.record_results(&origin1, &vec![Some(hit)]);
    assert_eq!(suite.record_at(0).distance, 5 * ONE);

    // The sensor moves and the ray misses: the record must not change.
    let origin2 = Vec3 { x: 100 * ONE, y: 0, z: 0 };
    suite.record_results(&origin2, &vec![None]);
    let rec = suite.record_at(0);
    assert_eq!(rec.position, Vec3 { x: 3 * ONE, y: 4 * ONE, z: 0 });
    assert_eq!(rec.normal, Vec3 { x: 0, y: 0, z: ONE });
    assert_eq!(rec.distance, 5 * ONE);
}

#[test]
fn rays_are_updated_independently() {
    let mut suite = RaySensorSuite::new(vec![
        Vec3 { x: 0, y: 0, z: -ONE },
        Vec3 { x: ONE, y: 0, z: 0 },
    ]);
    let origin = Vec3 { x: 0, y: 0, z: 0 };
    let hit = RayHit {
        position: Vec3 { x: 0, y: 0, z: -2 * ONE },
        normal: Vec3 { x: 0, y: ONE, z: 0 },
    };
    suite.record_results(&origin, &vec![Some(hit), None]);
    assert_eq!(suite.record_at(0).distance, 2 * ONE);
    assert_eq!(suite.record_at(1).distance, 0);
    assert_eq!(suite.record_at(1).position, Vec3 { x: 0, y: 0, z: 0 });
}
