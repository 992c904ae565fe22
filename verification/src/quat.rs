//! Fixed-point quaternions.
//!
//! A [`Quat`] carries an orientation; the ray fan builds one from a pitch and
//! a yaw and rotates the base forward vector with it. Construction follows
//! the engine's euler convention (yaw about Y, then pitch about X, roll
//! zero), stated over the half-angle sine/cosine pairs; rotation is the
//! Hamilton sandwich in its two-cross form. The mathematical model is the
//! ghost quadruple [`Q4`].

use vstd::prelude::*;

verus! {

use crate::fixed::FX_ONE;
use crate::fixed::MAX_COORD;
use crate::fixed::abs_int;
use crate::fixed::div_to_zero;
use crate::fixed::fx_div;
use crate::fixed::fx_mul;
use crate::fixed::fx_mul_spec;
use crate::fixed::isqrt_spec;
use crate::fixed::isqrt_u128;
use crate::fixed::lemma_fx_mul_bound;
use crate::fixed::lemma_isqrt_spec_correct;
use crate::fixed::lemma_sqrt_unique;
use crate::geom::Angle;
use crate::geom::Rot2;
use crate::geom::V3;
use crate::geom::Vec3;
use crate::geom::rot2_valid;
use crate::geom::v3_in_range;

/// The mathematical model of a [`Quat`]: a quadruple of unbounded integers.
pub ghost struct Q4 {
    pub x: int,
    pub y: int,
    pub z: int,
    pub w: int,
}

/// A fixed-point quaternion.
#[derive(Clone, Copy, PartialEq, Eq, Structural, Debug)]
pub struct Quat {
    pub x: i64,
    pub y: i64,
    pub z: i64,
    pub w: i64,
}

impl View for Quat {
    type V = Q4;

    open spec fn view(&self) -> Q4 {
        Q4 { x: self.x as int, y: self.y as int, z: self.z as int, w: self.w as int }
    }
}

/// A quaternion is valid when no component exceeds one: the form every
/// constructor of this crate produces.
pub open spec fn quat_valid(q: Q4) -> bool {
    &&& abs_int(q.x) <= FX_ONE as int
    &&& abs_int(q.y) <= FX_ONE as int
    &&& abs_int(q.z) <= FX_ONE as int
    &&& abs_int(q.w) <= FX_ONE as int
}

/// The identity rotation.
pub open spec fn q4_identity() -> Q4 {
    Q4 { x: 0, y: 0, z: 0, w: FX_ONE as int }
}

/// The quaternion of the euler angles (pitch, yaw, 0) in the engine's
/// yaw-then-pitch order, written over the half-angle pairs: with `p` the
/// sine/cosine of half the pitch and `y` of half the yaw,
/// `(sin p * cos y, sin y * cos p, -(sin y * sin p), cos y * cos p)`.
pub open spec fn q4_from_half_angles(p: Rot2, y: Rot2) -> Q4 {
    Q4 {
        x: fx_mul_spec(p.s, y.c),
        y: fx_mul_spec(y.s, p.c),
        z: -fx_mul_spec(y.s, p.s),
        w: fx_mul_spec(y.c, p.c),
    }
}

/// Sum of the squared raw components.
pub open spec fn q4_norm2(q: Q4) -> int {
    q.x * q.x + q.y * q.y + q.z * q.z + q.w * q.w
}

/// The quaternion rescaled to unit length: each component divided by the
/// integer square root of the squared norm, rounded toward zero.
pub open spec fn q4_normalized(q: Q4) -> Q4 {
    let n = isqrt_spec(q4_norm2(q));
    Q4 {
        x: div_to_zero(q.x * FX_ONE, n),
        y: div_to_zero(q.y * FX_ONE, n),
        z: div_to_zero(q.z * FX_ONE, n),
        w: div_to_zero(q.w * FX_ONE, n),
    }
}

/// Rotation of `v` by `q` in the two-cross form of the Hamilton sandwich:
/// with `t = 2 (q_v x v)`, the image is `v + w t + q_v x t`, each product a
/// fixed-point multiplication.
pub open spec fn q4_rotate(q: Q4, v: V3) -> V3 {
    let tx = 2 * (fx_mul_spec(q.y, v.z) - fx_mul_spec(q.z, v.y));
    let ty = 2 * (fx_mul_spec(q.z, v.x) - fx_mul_spec(q.x, v.z));
    let tz = 2 * (fx_mul_spec(q.x, v.y) - fx_mul_spec(q.y, v.x));
    V3 {
        x: v.x + fx_mul_spec(q.w, tx) + (fx_mul_spec(q.y, tz) - fx_mul_spec(q.z, ty)),
        y: v.y + fx_mul_spec(q.w, ty) + (fx_mul_spec(q.z, tx) - fx_mul_spec(q.x, tz)),
        z: v.z + fx_mul_spec(q.w, tz) + (fx_mul_spec(q.x, ty) - fx_mul_spec(q.y, tx)),
    }
}

/// Rotating by the identity quaternion returns the vector unchanged, exactly:
/// the fixed-point products with zero vanish and no rounding occurs.
pub proof fn lemma_identity_rotation(v: V3)
    ensures
        q4_rotate(q4_identity(), v) == v,
{
    assert(q4_rotate(q4_identity(), v).x == v.x);
    assert(q4_rotate(q4_identity(), v).y == v.y);
    assert(q4_rotate(q4_identity(), v).z == v.z);
}

/// A bound for the rotated vector: a valid quaternion maps coordinates
/// within `b` to coordinates within `13 b`.
pub proof fn lemma_quat_rotate_bound(q: Q4, v: V3, b: int)
    requires
        quat_valid(q),
        v3_in_range(v, b),
        0 <= b,
    ensures
        v3_in_range(q4_rotate(q, v), 13 * b),
{
    let s = FX_ONE as int;
    assert(s * b / s == b && s * (4 * b) / s == 4 * b) by (nonlinear_arith)
        requires
            0 <= b,
            s == 1_000_000,
    ;
    lemma_fx_mul_bound(q.y, v.z, s, b);
    lemma_fx_mul_bound(q.z, v.y, s, b);
    lemma_fx_mul_bound(q.z, v.x, s, b);
    lemma_fx_mul_bound(q.x, v.z, s, b);
    lemma_fx_mul_bound(q.x, v.y, s, b);
    lemma_fx_mul_bound(q.y, v.x, s, b);
    let tx = 2 * (fx_mul_spec(q.y, v.z) - fx_mul_spec(q.z, v.y));
    let ty = 2 * (fx_mul_spec(q.z, v.x) - fx_mul_spec(q.x, v.z));
    let tz = 2 * (fx_mul_spec(q.x, v.y) - fx_mul_spec(q.y, v.x));
    lemma_fx_mul_bound(q.w, tx, s, 4 * b);
    lemma_fx_mul_bound(q.w, ty, s, 4 * b);
    lemma_fx_mul_bound(q.w, tz, s, 4 * b);
    lemma_fx_mul_bound(q.y, tz, s, 4 * b);
    lemma_fx_mul_bound(q.z, ty, s, 4 * b);
    lemma_fx_mul_bound(q.z, tx, s, 4 * b);
    lemma_fx_mul_bound(q.x, tz, s, 4 * b);
    lemma_fx_mul_bound(q.x, ty, s, 4 * b);
    lemma_fx_mul_bound(q.y, tx, s, 4 * b);
}

impl Quat {
    /// The identity rotation.
    pub fn identity() -> (r: Quat)
        ensures
            r@ == q4_identity(),
            quat_valid(r@),
    {
        Quat { x: 0, y: 0, z: 0, w: FX_ONE }
    }

    /// The quaternion of the euler angles (pitch, yaw, 0) in the engine's
    /// yaw-then-pitch order. `pitch_half` and `yaw_half` are the sine/cosine
    /// pairs of half the pitch and half the yaw.
    pub fn from_half_angles(pitch_half: &Angle, yaw_half: &Angle) -> (r: Quat)
        requires
            rot2_valid(pitch_half@),
            rot2_valid(yaw_half@),
        ensures
            r@ == q4_from_half_angles(pitch_half@, yaw_half@),
            quat_valid(r@),
    {
        let s = FX_ONE;
        proof {
            lemma_fx_mul_bound(pitch_half@.s, yaw_half@.c, s as int, s as int);
            lemma_fx_mul_bound(yaw_half@.s, pitch_half@.c, s as int, s as int);
            lemma_fx_mul_bound(yaw_half@.s, pitch_half@.s, s as int, s as int);
            lemma_fx_mul_bound(yaw_half@.c, pitch_half@.c, s as int, s as int);
            assert((s as int) * (s as int) / (s as int) == s as int) by (nonlinear_arith)
                requires
                    s as int == 1_000_000,
            ;
        }
        Quat {
            x: fx_mul(pitch_half.s, yaw_half.c),
            y: fx_mul(yaw_half.s, pitch_half.c),
            z: -fx_mul(yaw_half.s, pitch_half.s),
            w: fx_mul(yaw_half.c, pitch_half.c),
        }
    }

    /// Rotation of `v` by this quaternion.
    pub fn rotate(&self, v: &Vec3) -> (r: Vec3)
        requires
            quat_valid(self@),
            v.in_range(MAX_COORD as int),
        ensures
            r@ == q4_rotate(self@, v@),
            r.in_range(13 * MAX_COORD as int),
    {
        proof {
            lemma_quat_rotate_bound(self@, v@, MAX_COORD as int);
            let s = FX_ONE as int;
            let b = MAX_COORD as int;
            assert(s * b / s == b && s * (4 * b) / s == 4 * b) by (nonlinear_arith)
                requires
                    0 <= b,
                    s == 1_000_000,
            ;
            lemma_fx_mul_bound(self@.y, v@.z, s, b);
            lemma_fx_mul_bound(self@.z, v@.y, s, b);
            lemma_fx_mul_bound(self@.z, v@.x, s, b);
            lemma_fx_mul_bound(self@.x, v@.z, s, b);
            lemma_fx_mul_bound(self@.x, v@.y, s, b);
            lemma_fx_mul_bound(self@.y, v@.x, s, b);
        }
        let tx: i64 = 2 * (fx_mul(self.y, v.z) - fx_mul(self.z, v.y));
        let ty: i64 = 2 * (fx_mul(self.z, v.x) - fx_mul(self.x, v.z));
        let tz: i64 = 2 * (fx_mul(self.x, v.y) - fx_mul(self.y, v.x));
        proof {
            let s = FX_ONE as int;
            let b = MAX_COORD as int;
            assert(s * (4 * b) / s == 4 * b) by (nonlinear_arith)
                requires
                    0 <= b,
                    s == 1_000_000,
            ;
            lemma_fx_mul_bound(self@.w, tx as int, s, 4 * b);
            lemma_fx_mul_bound(self@.w, ty as int, s, 4 * b);
            lemma_fx_mul_bound(self@.w, tz as int, s, 4 * b);
            lemma_fx_mul_bound(self@.y, tz as int, s, 4 * b);
            lemma_fx_mul_bound(self@.z, ty as int, s, 4 * b);
            lemma_fx_mul_bound(self@.z, tx as int, s, 4 * b);
            lemma_fx_mul_bound(self@.x, tz as int, s, 4 * b);
            lemma_fx_mul_bound(self@.x, ty as int, s, 4 * b);
            lemma_fx_mul_bound(self@.y, tx as int, s, 4 * b);
        }
        Vec3 {
            x: v.x + fx_mul(self.w, tx) + (fx_mul(self.y, tz) - fx_mul(self.z, ty)),
            y: v.y + fx_mul(self.w, ty) + (fx_mul(self.z, tx) - fx_mul(self.x, tz)),
            z: v.z + fx_mul(self.w, tz) + (fx_mul(self.x, ty) - fx_mul(self.y, tx)),
        }
    }

    /// The quaternion rescaled to unit length. Requires a non-zero
    /// quaternion, since the zero quaternion names no orientation.
    pub fn normalized(&self) -> (r: Quat)
        requires
            self.in_range(2 * MAX_COORD as int),
            q4_norm2(self@) > 0,
        ensures
            r@ == q4_normalized(self@),
            quat_valid(r@),
    {
        proof {
            assert(0 <= self@.x * self@.x <= 4 * (MAX_COORD as int) * (MAX_COORD as int))
                by (nonlinear_arith)
                requires
                    abs_int(self@.x) <= 2 * MAX_COORD as int,
            ;
            assert(0 <= self@.y * self@.y <= 4 * (MAX_COORD as int) * (MAX_COORD as int))
                by (nonlinear_arith)
                requires
                    abs_int(self@.y) <= 2 * MAX_COORD as int,
            ;
            assert(0 <= self@.z * self@.z <= 4 * (MAX_COORD as int) * (MAX_COORD as int))
                by (nonlinear_arith)
                requires
                    abs_int(self@.z) <= 2 * MAX_COORD as int,
            ;
            assert(0 <= self@.w * self@.w <= 4 * (MAX_COORD as int) * (MAX_COORD as int))
                by (nonlinear_arith)
                requires
                    abs_int(self@.w) <= 2 * MAX_COORD as int,
            ;
        }
        let xx: u128 = ((self.x as i128) * (self.x as i128)) as u128;
        let yy: u128 = ((self.y as i128) * (self.y as i128)) as u128;
        let zz: u128 = ((self.z as i128) * (self.z as i128)) as u128;
        let ww: u128 = ((self.w as i128) * (self.w as i128)) as u128;
        let n2: u128 = xx + yy + zz + ww;
        let n: u128 = isqrt_u128(n2);
        proof {
            assert(n as int <= 4 * MAX_COORD as int) by (nonlinear_arith)
                requires
                    (n as int) * (n as int) <= n2 as int,
                    n2 as int <= 16 * (MAX_COORD as int) * (MAX_COORD as int),
                    0 <= n as int,
                    MAX_COORD as int == 1_000_000_000_000,
            ;
            let ni = n as int;
            assert(ni >= 1) by (nonlinear_arith)
                requires
                    (n2 as int) < (ni + 1) * (ni + 1),
                    n2 as int > 0,
                    0 <= ni,
            ;
        }
        let nn: i64 = n as i64;
        proof {
            lemma_component_over_norm(self@.x, n2 as int, n as int);
            lemma_component_over_norm(self@.y, n2 as int, n as int);
            lemma_component_over_norm(self@.z, n2 as int, n as int);
            lemma_component_over_norm(self@.w, n2 as int, n as int);
        }
        Quat {
            x: fx_div(self.x, nn),
            y: fx_div(self.y, nn),
            z: fx_div(self.z, nn),
            w: fx_div(self.w, nn),
        }
    }

    pub open spec fn in_range(&self, b: int) -> bool {
        &&& abs_int(self@.x) <= b
        &&& abs_int(self@.y) <= b
        &&& abs_int(self@.z) <= b
        &&& abs_int(self@.w) <= b
    }
}

/// A component of a quaternion never exceeds the norm, so dividing it by the
/// norm keeps the fixed-point ratio within one.
proof fn lemma_component_over_norm(a: int, n2: int, n: int)
    requires
        a * a <= n2,
        n2 < (n + 1) * (n + 1),
        n >= 1,
    ensures
        abs_int(div_to_zero(a * FX_ONE, n)) <= FX_ONE as int,
{
    assert(abs_int(a) <= n) by (nonlinear_arith)
        requires
            a * a <= n2,
            n2 < (n + 1) * (n + 1),
            n >= 1,
    ;
    assert(abs_int(a * FX_ONE) <= n * FX_ONE) by (nonlinear_arith)
        requires
            abs_int(a) <= n,
            FX_ONE as int == 1_000_000,
    ;
    crate::fixed::lemma_div_to_zero_bound(a * FX_ONE, n, n * (FX_ONE as int));
    assert(n * (FX_ONE as int) / n == FX_ONE as int) by (nonlinear_arith)
        requires
            n >= 1,
            FX_ONE as int == 1_000_000,
    ;
}

/// The forward direction of an orientation given as a quaternion: the
/// quaternion is normalized and applied to the engine's base forward vector
/// `(0, 0, -1)`.
pub fn quaternion_to_dir_godot(quat: &Quat) -> (r: Vec3)
    requires
        quat.in_range(2 * MAX_COORD as int),
        q4_norm2(quat@) > 0,
    ensures
        r@ == q4_rotate(q4_normalized(quat@), (V3 { x: 0, y: 0, z: -(FX_ONE as int) })),
        r.in_range(13 * FX_ONE as int),
{
    let normalized_quat = quat.normalized();
    let forward = Vec3 { x: 0, y: 0, z: -FX_ONE };
    let r = normalized_quat.rotate(&forward);
    proof {
        lemma_quat_rotate_bound(normalized_quat@, forward@, FX_ONE as int);
    }
    r
}

} // verus!
