//! Fan-pattern ray direction synthesis.
//!
//! The sensor's fixed local-frame fan is the Cartesian product of a pitch
//! list and a yaw list: for each pair, the base forward vector rotated by
//! the quaternion of (pitch, yaw, roll zero), laid out row-major with pitch
//! outer and yaw inner. Generated once at construction; only the frame
//! transform is recomputed per tick.

use vstd::prelude::*;

verus! {

use crate::fixed::FX_ONE;
use crate::fixed::MAX_COORD;
use crate::geom::Angle;
use crate::geom::Rot2;
use crate::geom::V3;
use crate::geom::Vec3;
use crate::geom::rot2_valid;
use crate::geom::v3_in_range;
use crate::quat::Quat;
use crate::quat::lemma_identity_rotation;
use crate::quat::lemma_quat_rotate_bound;
use crate::quat::q4_from_half_angles;
use crate::quat::q4_identity;
use crate::quat::q4_rotate;
use vstd::arithmetic::div_mod::lemma_fundamental_div_mod_converse;

/// The views of a list of angles.
pub open spec fn angle_views(s: Seq<Angle>) -> Seq<Rot2> {
    s.map_values(|a: Angle| a@)
}

/// Every angle of the list is a valid sine/cosine pair.
pub open spec fn angles_valid(s: Seq<Rot2>) -> bool {
    forall|i: int| 0 <= i < s.len() ==> rot2_valid(#[trigger] s[i])
}

/// The direction at flat position `k` of the row-major fan over
/// `pitches x yaws`: the base vector rotated by the quaternion of the pair
/// `(pitches[k / |yaws|], yaws[k mod |yaws|])`.
pub open spec fn fan_dir(forward: V3, pitches: Seq<Rot2>, yaws: Seq<Rot2>, k: int) -> V3 {
    q4_rotate(
        q4_from_half_angles(pitches[k / yaws.len() as int], yaws[k % yaws.len() as int]),
        forward,
    )
}

/// The sine/cosine pair of the zero angle.
pub open spec fn rot2_zero() -> Rot2 {
    Rot2 { s: 0, c: FX_ONE as int }
}

/// The fan is laid out row-major, pitch outer and yaw inner: the entry at
/// flat position `i * |yaws| + j` is the rotation by the pair
/// `(pitches[i], yaws[j])`.
pub proof fn lemma_fan_row_major(
    forward: V3,
    pitches: Seq<Rot2>,
    yaws: Seq<Rot2>,
    i: int,
    j: int,
)
    requires
        0 <= i < pitches.len(),
        0 <= j < yaws.len(),
    ensures
        fan_dir(forward, pitches, yaws, i * yaws.len() + j) == q4_rotate(
            q4_from_half_angles(pitches[i], yaws[j]),
            forward,
        ),
{
    lemma_fundamental_div_mod_converse(i * yaws.len() + j, yaws.len() as int, i, j);
}

/// A fan of one zero pitch and one zero yaw is the base forward vector
/// itself, exactly: the zero pair builds the identity quaternion, and the
/// identity rotation loses nothing to rounding.
pub proof fn lemma_fan_identity(forward: V3, pitches: Seq<Rot2>, yaws: Seq<Rot2>)
    requires
        pitches =~= seq![rot2_zero()],
        yaws =~= seq![rot2_zero()],
    ensures
        fan_dir(forward, pitches, yaws, 0) == forward,
{
    assert(q4_from_half_angles(rot2_zero(), rot2_zero()) == q4_identity());
    lemma_identity_rotation(forward);
}

/// The row-major fan of ray directions over `pitches x yaws`, each entry
/// the base vector rotated by the quaternion of its (pitch, yaw) pair. The
/// angles enter as half-angle sine/cosine pairs, the form the quaternion
/// construction consumes.
pub fn generate_ray_dirs(forward: &Vec3, pitches: &Vec<Angle>, yaws: &Vec<Angle>) -> (r: Vec<
    Vec3,
>)
    requires
        forward.in_range(MAX_COORD as int / 16),
        angles_valid(angle_views(pitches@)),
        angles_valid(angle_views(yaws@)),
    ensures
        r@.len() == pitches@.len() * yaws@.len(),
        forall|k: int|
            0 <= k < r@.len() ==> #[trigger] r@[k]@ == fan_dir(
                forward@,
                angle_views(pitches@),
                angle_views(yaws@),
                k,
            ),
        forall|k: int| 0 <= k < r@.len() ==> (#[trigger] r@[k]).in_range(MAX_COORD as int),
{
    let ghost pv = angle_views(pitches@);
    let ghost yv = angle_views(yaws@);
    let np = pitches.len();
    let ny = yaws.len();
    let mut dirs: Vec<Vec3> = Vec::new();
    let mut i: usize = 0;
    while i < np
        invariant
            np == pitches@.len(),
            ny == yaws@.len(),
            pv == angle_views(pitches@),
            yv == angle_views(yaws@),
            angles_valid(pv),
            angles_valid(yv),
            forward.in_range(MAX_COORD as int / 16),
            i <= np,
            dirs@.len() == i * ny,
            forall|k: int|
                0 <= k < dirs@.len() ==> #[trigger] dirs@[k]@ == fan_dir(forward@, pv, yv, k),
            forall|k: int| 0 <= k < dirs@.len() ==> (#[trigger] dirs@[k]).in_range(
                MAX_COORD as int,
            ),
        decreases np - i,
    {
        let mut j: usize = 0;
        while j < ny
            invariant
                np == pitches@.len(),
                ny == yaws@.len(),
                pv == angle_views(pitches@),
                yv == angle_views(yaws@),
                angles_valid(pv),
                angles_valid(yv),
                forward.in_range(MAX_COORD as int / 16),
                i < np,
                j <= ny,
                dirs@.len() == i * ny + j,
                forall|k: int|
                    0 <= k < dirs@.len() ==> #[trigger] dirs@[k]@ == fan_dir(forward@, pv, yv, k),
                forall|k: int| 0 <= k < dirs@.len() ==> (#[trigger] dirs@[k]).in_range(
                    MAX_COORD as int,
                ),
            decreases ny - j,
        {
            proof {
                assert(pv[i as int] == pitches@[i as int]@);
                assert(yv[j as int] == yaws@[j as int]@);
            }
            let q = Quat::from_half_angles(&pitches[i], &yaws[j]);
            let d = q.rotate(forward);
            proof {
                lemma_quat_rotate_bound(q@, forward@, MAX_COORD as int / 16);
                let k = i * ny + j;
                lemma_fundamental_div_mod_converse(k as int, ny as int, i as int, j as int);
                assert(d@ == fan_dir(forward@, pv, yv, k as int));
            }
            dirs.push(d);
            j += 1;
        }
        i += 1;
        proof {
            assert((i - 1) * ny + ny == i * ny) by (nonlinear_arith);
        }
    }
    dirs
}

} // verus!
