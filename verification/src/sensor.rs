//! Multi-ray environment sensing.
//!
//! A [`RaySensorSuite`] owns a fixed set of local-frame ray directions and
//! one [`HitRecord`] per ray. Each tick the suite turns its local directions
//! into world-frame target points for the host's ray-cast service, then
//! folds the cast results back in: a hit overwrites the ray's record and its
//! distance, a miss leaves the record exactly as it was — the hold-last-value
//! policy. A miss is the normal path, never a failure.

use vstd::prelude::*;

verus! {

use crate::fixed::MAX_COORD;
use crate::fixed::isqrt_spec;
use crate::geom::Angle;
use crate::geom::Rot2;
use crate::geom::V3;
use crate::geom::Vec3;
use crate::geom::lemma_rot_bound;
use crate::geom::rot2_valid;
use crate::geom::v3_in_range;
use crate::geom::v3_norm2;
use crate::geom::v3_rot_x;
use crate::geom::v3_rot_y;
use crate::geom::v3_rot_z;
use crate::geom::v3_sub;

/// The mathematical model of a [`HitRecord`].
pub ghost struct HitRec {
    pub position: V3,
    pub normal: V3,
    pub distance: int,
}

/// The mathematical model of a [`RayHit`].
pub ghost struct HitV {
    pub position: V3,
    pub normal: V3,
}

/// The mathematical model of a [`Frame`].
pub ghost struct FrameV {
    pub yaw: Rot2,
    pub pitch: Rot2,
    pub roll: Rot2,
    pub offset: V3,
}

/// What a successful ray cast reports: hit point and surface normal.
#[derive(Clone, Copy, PartialEq, Eq, Structural, Debug)]
pub struct RayHit {
    pub position: Vec3,
    pub normal: Vec3,
}

/// A ray's last successful reading: hit point, surface normal, and the
/// distance from the sensor origin at the time of the hit.
#[derive(Clone, Copy, PartialEq, Eq, Structural, Debug)]
pub struct HitRecord {
    pub position: Vec3,
    pub normal: Vec3,
    pub distance: i64,
}

/// The per-tick frame correction: the euler angles of the inverse
/// local-to-global rotation (already negated, as sine/cosine pairs, applied
/// about Y, then X, then Z) and its translation, which is subtracted.
#[derive(Clone, Copy, PartialEq, Eq, Structural, Debug)]
pub struct Frame {
    pub yaw: Angle,
    pub pitch: Angle,
    pub roll: Angle,
    pub offset: Vec3,
}

impl View for RayHit {
    type V = HitV;

    open spec fn view(&self) -> HitV {
        HitV { position: self.position@, normal: self.normal@ }
    }
}

impl View for HitRecord {
    type V = HitRec;

    open spec fn view(&self) -> HitRec {
        HitRec { position: self.position@, normal: self.normal@, distance: self.distance as int }
    }
}

impl View for Frame {
    type V = FrameV;

    open spec fn view(&self) -> FrameV {
        FrameV { yaw: self.yaw@, pitch: self.pitch@, roll: self.roll@, offset: self.offset@ }
    }
}

/// All three correction angles are valid sine/cosine pairs and the offset is
/// a world coordinate.
pub open spec fn frame_valid(f: FrameV) -> bool {
    &&& rot2_valid(f.yaw)
    &&& rot2_valid(f.pitch)
    &&& rot2_valid(f.roll)
    &&& v3_in_range(f.offset, MAX_COORD as int)
}

/// The world-frame target point of a local ray direction: the direction
/// rotated by the frame's yaw, pitch and roll corrections in that order,
/// minus the frame's translation.
pub open spec fn world_target(dir: V3, f: FrameV) -> V3 {
    v3_sub(v3_rot_z(v3_rot_x(v3_rot_y(dir, f.yaw), f.pitch), f.roll), f.offset)
}

/// The view of a cast result.
pub open spec fn opt_hit_view(o: Option<RayHit>) -> Option<HitV> {
    match o {
        Some(h) => Some(h@),
        None => None,
    }
}

/// One ray's record after one tick: a hit replaces the record, position and
/// normal from the cast and the distance the integer-square-root norm of the
/// sensor-origin-to-hit vector; a miss keeps the record whole.
pub open spec fn updated_record(rec: HitRec, origin: V3, res: Option<HitV>) -> HitRec {
    match res {
        Some(h) => HitRec {
            position: h.position,
            normal: h.normal,
            distance: isqrt_spec(v3_norm2(v3_sub(origin, h.position))),
        },
        None => rec,
    }
}

/// The hold-last-value policy, across ticks: a ray that hit and then missed
/// still reads exactly as the hit left it, whatever the later origin.
pub proof fn lemma_hold_last_value(rec: HitRec, origin1: V3, h: HitV, origin2: V3)
    ensures
        updated_record(updated_record(rec, origin1, Some(h)), origin2, None) == updated_record(
            rec,
            origin1,
            Some(h),
        ),
        updated_record(updated_record(rec, origin1, Some(h)), origin2, None).position
            == h.position,
{
}

/// Fixed fan of local-frame ray directions with one hit record per ray.
pub struct RaySensorSuite {
    ray_targets_local: Vec<Vec3>,
    records: Vec<HitRecord>,
}

impl RaySensorSuite {
    /// One record per ray, every direction a world coordinate.
    pub closed spec fn wf(&self) -> bool {
        &&& self.records@.len() == self.ray_targets_local@.len()
        &&& forall|i: int|
            0 <= i < self.ray_targets_local@.len() ==> (
            #[trigger] self.ray_targets_local@[i]).in_range(MAX_COORD as int)
    }

    /// The local-frame ray directions, as the model sees them.
    pub closed spec fn dirs(&self) -> Seq<V3> {
        self.ray_targets_local@.map_values(|v: Vec3| v@)
    }

    /// The hit records, as the model sees them.
    pub closed spec fn recs(&self) -> Seq<HitRec> {
        self.records@.map_values(|r: HitRecord| r@)
    }

    /// A new suite over the given local-frame directions, every record
    /// zeroed, as before any ray has hit.
    pub fn new(ray_targets_local: Vec<Vec3>) -> (r: RaySensorSuite)
        requires
            forall|i: int|
                0 <= i < ray_targets_local@.len() ==> (#[trigger] ray_targets_local@[i]).in_range(
                    MAX_COORD as int,
                ),
        ensures
            r.wf(),
            r.dirs() == ray_targets_local@.map_values(|v: Vec3| v@),
            forall|i: int|
                0 <= i < r.recs().len() ==> #[trigger] r.recs()[i] == (HitRec {
                    position: V3 { x: 0, y: 0, z: 0 },
                    normal: V3 { x: 0, y: 0, z: 0 },
                    distance: 0,
                }),
    {
        let n = ray_targets_local.len();
        let mut records: Vec<HitRecord> = Vec::new();
        let mut i: usize = 0;
        while i < n
            invariant
                i <= n,
                records@.len() == i,
                forall|a: int| 0 <= a < i ==> #[trigger] records@[a] == (HitRecord {
                    position: Vec3 { x: 0, y: 0, z: 0 },
                    normal: Vec3 { x: 0, y: 0, z: 0 },
                    distance: 0,
                }),
            decreases n - i,
        {
            records.push(
                HitRecord {
                    position: Vec3 { x: 0, y: 0, z: 0 },
                    normal: Vec3 { x: 0, y: 0, z: 0 },
                    distance: 0,
                },
            );
            i += 1;
        }
        RaySensorSuite { ray_targets_local, records }
    }

    /// Number of rays in the fan.
    pub fn ray_count(&self) -> (r: usize)
        ensures
            r == self.dirs().len(),
    {
        self.ray_targets_local.len()
    }

    /// The record of one ray, as the last hit left it.
    pub fn record_at(&self, i: usize) -> (r: HitRecord)
        requires
            self.wf(),
            i < self.recs().len(),
        ensures
            r@ == self.recs()[i as int],
    {
        self.records[i]
    }

    /// The world-frame target points of every ray under the given frame
    /// correction, in ray order.
    pub fn world_targets(&self, frame: &Frame) -> (r: Vec<Vec3>)
        requires
            self.wf(),
            frame_valid(frame@),
        ensures
            r@.len() == self.dirs().len(),
            forall|i: int|
                0 <= i < r@.len() ==> #[trigger] r@[i]@ == world_target(self.dirs()[i], frame@),
    {
        let n = self.ray_targets_local.len();
        let mut targets: Vec<Vec3> = Vec::new();
        let mut i: usize = 0;
        while i < n
            invariant
                n == self.ray_targets_local@.len(),
                self.wf(),
                frame_valid(frame@),
                i <= n,
                targets@.len() == i,
                forall|a: int|
                    0 <= a < i ==> #[trigger] targets@[a]@ == world_target(
                        self.dirs()[a],
                        frame@,
                    ),
            decreases n - i,
        {
            let dir = self.ray_targets_local[i];
            proof {
                assert(dir@ == self.dirs()[i as int]);
                lemma_rot_bound(dir@, frame@.yaw, MAX_COORD as int);
                lemma_rot_bound(v3_rot_y(dir@, frame@.yaw), frame@.pitch, 2 * MAX_COORD as int);
                lemma_rot_bound(
                    v3_rot_x(v3_rot_y(dir@, frame@.yaw), frame@.pitch),
                    frame@.roll,
                    4 * MAX_COORD as int,
                );
            }
            let t = dir.rotated_y(&frame.yaw).rotated_x(&frame.pitch).rotated_z(
                &frame.roll,
            ).minus(&frame.offset);
            targets.push(t);
            i += 1;
        }
        targets
    }

    /// Folds one tick's cast results into the records: for each ray, a hit
    /// overwrites position, normal and distance, a miss changes nothing.
    pub fn record_results(&mut self, origin: &Vec3, results: &Vec<Option<RayHit>>)
        requires
            old(self).wf(),
            results@.len() == old(self).recs().len(),
            origin.in_range(MAX_COORD as int),
            forall|i: int|
                0 <= i < results@.len() ==> ((#[trigger] results@[i]) matches Some(h) ==> (
                h.position.in_range(MAX_COORD as int) && h.normal.in_range(MAX_COORD as int))),
        ensures
            final(self).wf(),
            final(self).dirs() == old(self).dirs(),
            final(self).recs().len() == old(self).recs().len(),
            forall|i: int|
                0 <= i < results@.len() ==> #[trigger] final(self).recs()[i] == updated_record(
                    old(self).recs()[i],
                    origin@,
                    opt_hit_view(results@[i]),
                ),
    {
        let n = self.records.len();
        let mut i: usize = 0;
        while i < n
            invariant
                n == self.records@.len(),
                self.wf(),
                self.ray_targets_local@ == old(self).ray_targets_local@,
                self.records@.len() == old(self).records@.len(),
                results@.len() == old(self).recs().len(),
                origin.in_range(MAX_COORD as int),
                forall|a: int|
                    0 <= a < results@.len() ==> ((#[trigger] results@[a]) matches Some(h) ==> (
                    h.position.in_range(MAX_COORD as int) && h.normal.in_range(MAX_COORD as int))),
                i <= n,
                forall|a: int|
                    0 <= a < i ==> #[trigger] self.recs()[a] == updated_record(
                        old(self).recs()[a],
                        origin@,
                        opt_hit_view(results@[a]),
                    ),
                forall|a: int| i <= a < n ==> #[trigger] self.recs()[a] == old(self).recs()[a],
            decreases n - i,
        {
            let ghost prev = *self;
            match &results[i] {
                Some(hit) => {
                    proof {
                        assert(results@[i as int] matches Some(h) && h == *hit);
                    }
                    let delta = origin.minus(&hit.position);
                    let d = delta.norm();
                    let rec = HitRecord { position: hit.position, normal: hit.normal, distance: d };
                    self.records.set(i, rec);
                    proof {
                        assert(self.recs()[i as int] == rec@);
                        assert(rec@ == updated_record(
                            old(self).recs()[i as int],
                            origin@,
                            opt_hit_view(results@[i as int]),
                        ));
                        assert forall|a: int| 0 <= a < n && a != i as int implies #[trigger] self
                            .recs()[a] == prev.recs()[a] by {
                            assert(self.records@[a] == prev.records@[a]);
                        }
                    }
                },
                None => {
                    proof {
                        assert(self.recs()[i as int] == updated_record(
                            old(self).recs()[i as int],
                            origin@,
                            opt_hit_view(results@[i as int]),
                        ));
                    }
                },
            }
            i += 1;
        }
    }
}

} // verus!
