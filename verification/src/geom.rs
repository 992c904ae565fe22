//! Fixed-point 3-vectors, angles and axis rotations.
//!
//! A [`Vec3`] stores three fixed-point coordinates; its mathematical model is
//! the ghost triple [`V3`] of unbounded integers, and every operation's
//! contract states the resulting triple exactly. An [`Angle`] carries the
//! sine and cosine of an angle as fixed-point scalars, which is all a
//! rotation ever reads of it; the host computes the pair once, the verified
//! geometry does the rest.

use vstd::prelude::*;

verus! {

use crate::fixed::FX_ONE;
use crate::fixed::MAX_COORD;
use crate::fixed::abs_int;
use crate::fixed::fits_i64;
use crate::fixed::fx_mul;
use crate::fixed::fx_mul_spec;
use crate::fixed::is_sqrt_of;
use crate::fixed::isqrt_spec;
use crate::fixed::isqrt_u128;
use crate::fixed::lemma_fx_mul_bound;

/// Largest coordinate magnitude an axis rotation accepts; wide enough for a
/// ray target that has passed a fan rotation and three frame corrections.
pub const ROT_INPUT_MAX: i64 = 0x8_0000_0000_0000_00;

/// The mathematical model of a [`Vec3`]: a triple of unbounded integers.
pub ghost struct V3 {
    pub x: int,
    pub y: int,
    pub z: int,
}

/// The mathematical model of an [`Angle`]: its sine and cosine, in
/// fixed-point steps.
pub ghost struct Rot2 {
    pub s: int,
    pub c: int,
}

/// A fixed-point 3-vector.
#[derive(Clone, Copy, PartialEq, Eq, Structural, Debug)]
pub struct Vec3 {
    pub x: i64,
    pub y: i64,
    pub z: i64,
}

/// An angle, represented by its fixed-point sine and cosine.
#[derive(Clone, Copy, PartialEq, Eq, Structural, Debug)]
pub struct Angle {
    pub s: i64,
    pub c: i64,
}

impl View for Vec3 {
    type V = V3;

    open spec fn view(&self) -> V3 {
        V3 { x: self.x as int, y: self.y as int, z: self.z as int }
    }
}

impl View for Angle {
    type V = Rot2;

    open spec fn view(&self) -> Rot2 {
        Rot2 { s: self.s as int, c: self.c as int }
    }
}

/// All three coordinates lie within `b` in magnitude.
pub open spec fn v3_in_range(v: V3, b: int) -> bool {
    &&& abs_int(v.x) <= b
    &&& abs_int(v.y) <= b
    &&& abs_int(v.z) <= b
}

/// A sine/cosine pair is valid when neither exceeds one.
pub open spec fn rot2_valid(a: Rot2) -> bool {
    &&& abs_int(a.s) <= FX_ONE as int
    &&& abs_int(a.c) <= FX_ONE as int
}

pub open spec fn v3_sub(a: V3, b: V3) -> V3 {
    V3 { x: a.x - b.x, y: a.y - b.y, z: a.z - b.z }
}

pub open spec fn v3_neg(a: V3) -> V3 {
    V3 { x: -a.x, y: -a.y, z: -a.z }
}

/// Each coordinate scaled by the fixed-point factor `k`.
pub open spec fn v3_scale(k: int, v: V3) -> V3 {
    V3 { x: fx_mul_spec(k, v.x), y: fx_mul_spec(k, v.y), z: fx_mul_spec(k, v.z) }
}

/// Fixed-point dot product.
pub open spec fn v3_dot(a: V3, b: V3) -> int {
    fx_mul_spec(a.x, b.x) + fx_mul_spec(a.y, b.y) + fx_mul_spec(a.z, b.z)
}

/// Fixed-point cross product.
pub open spec fn v3_cross(a: V3, b: V3) -> V3 {
    V3 {
        x: fx_mul_spec(a.y, b.z) - fx_mul_spec(a.z, b.y),
        y: fx_mul_spec(a.z, b.x) - fx_mul_spec(a.x, b.z),
        z: fx_mul_spec(a.x, b.y) - fx_mul_spec(a.y, b.x),
    }
}

/// Rotation about the X axis by the angle whose sine and cosine are `a`.
pub open spec fn v3_rot_x(v: V3, a: Rot2) -> V3 {
    V3 {
        x: v.x,
        y: fx_mul_spec(a.c, v.y) - fx_mul_spec(a.s, v.z),
        z: fx_mul_spec(a.s, v.y) + fx_mul_spec(a.c, v.z),
    }
}

/// Rotation about the Y axis.
pub open spec fn v3_rot_y(v: V3, a: Rot2) -> V3 {
    V3 {
        x: fx_mul_spec(a.c, v.x) + fx_mul_spec(a.s, v.z),
        y: v.y,
        z: fx_mul_spec(a.c, v.z) - fx_mul_spec(a.s, v.x),
    }
}

/// Rotation about the Z axis.
pub open spec fn v3_rot_z(v: V3, a: Rot2) -> V3 {
    V3 {
        x: fx_mul_spec(a.c, v.x) - fx_mul_spec(a.s, v.y),
        y: fx_mul_spec(a.s, v.x) + fx_mul_spec(a.c, v.y),
        z: v.z,
    }
}

/// Sum of the squared raw coordinates: the squared norm, in squared steps.
pub open spec fn v3_norm2(v: V3) -> int {
    v.x * v.x + v.y * v.y + v.z * v.z
}

/// An axis rotation at most doubles a coordinate bound.
pub proof fn lemma_rot_bound(v: V3, a: Rot2, b: int)
    requires
        rot2_valid(a),
        v3_in_range(v, b),
        0 <= b,
    ensures
        v3_in_range(v3_rot_x(v, a), 2 * b),
        v3_in_range(v3_rot_y(v, a), 2 * b),
        v3_in_range(v3_rot_z(v, a), 2 * b),
{
    lemma_fx_mul_bound(a.c, v.x, FX_ONE as int, b);
    lemma_fx_mul_bound(a.c, v.y, FX_ONE as int, b);
    lemma_fx_mul_bound(a.c, v.z, FX_ONE as int, b);
    lemma_fx_mul_bound(a.s, v.x, FX_ONE as int, b);
    lemma_fx_mul_bound(a.s, v.y, FX_ONE as int, b);
    lemma_fx_mul_bound(a.s, v.z, FX_ONE as int, b);
    assert((FX_ONE as int) * b / (FX_ONE as int) == b) by (nonlinear_arith)
        requires
            0 <= b,
            FX_ONE as int == 1_000_000,
    ;
}

impl Vec3 {
    pub open spec fn in_range(&self, b: int) -> bool {
        v3_in_range(self@, b)
    }

    /// Componentwise difference.
    pub fn minus(&self, other: &Vec3) -> (r: Vec3)
        requires
            fits_i64(self@.x - other@.x),
            fits_i64(self@.y - other@.y),
            fits_i64(self@.z - other@.z),
        ensures
            r@ == v3_sub(self@, other@),
    {
        Vec3 { x: self.x - other.x, y: self.y - other.y, z: self.z - other.z }
    }

    /// Each coordinate scaled by the fixed-point factor `k`.
    pub fn scaled(&self, k: i64) -> (r: Vec3)
        requires
            abs_int(k as int) <= MAX_COORD as int,
            self.in_range(MAX_COORD as int),
        ensures
            r@ == v3_scale(k as int, self@),
    {
        proof {
            lemma_fx_mul_bound(k as int, self@.x, MAX_COORD as int, MAX_COORD as int);
            lemma_fx_mul_bound(k as int, self@.y, MAX_COORD as int, MAX_COORD as int);
            lemma_fx_mul_bound(k as int, self@.z, MAX_COORD as int, MAX_COORD as int);
        }
        Vec3 { x: fx_mul(k, self.x), y: fx_mul(k, self.y), z: fx_mul(k, self.z) }
    }

    /// Fixed-point dot product.
    pub fn dot(&self, other: &Vec3) -> (r: i64)
        requires
            self.in_range(MAX_COORD as int),
            other.in_range(MAX_COORD as int),
        ensures
            r as int == v3_dot(self@, other@),
    {
        proof {
            lemma_fx_mul_bound(self@.x, other@.x, MAX_COORD as int, MAX_COORD as int);
            lemma_fx_mul_bound(self@.y, other@.y, MAX_COORD as int, MAX_COORD as int);
            lemma_fx_mul_bound(self@.z, other@.z, MAX_COORD as int, MAX_COORD as int);
        }
        fx_mul(self.x, other.x) + fx_mul(self.y, other.y) + fx_mul(self.z, other.z)
    }

    /// Rotation about the X axis.
    pub fn rotated_x(&self, a: &Angle) -> (r: Vec3)
        requires
            rot2_valid(a@),
            self.in_range(ROT_INPUT_MAX as int),
        ensures
            r@ == v3_rot_x(self@, a@),
    {
        proof {
            lemma_fx_mul_bound(a@.c, self@.y, FX_ONE as int, ROT_INPUT_MAX as int);
            lemma_fx_mul_bound(a@.s, self@.z, FX_ONE as int, ROT_INPUT_MAX as int);
            lemma_fx_mul_bound(a@.s, self@.y, FX_ONE as int, ROT_INPUT_MAX as int);
            lemma_fx_mul_bound(a@.c, self@.z, FX_ONE as int, ROT_INPUT_MAX as int);
        }
        Vec3 {
            x: self.x,
            y: fx_mul(a.c, self.y) - fx_mul(a.s, self.z),
            z: fx_mul(a.s, self.y) + fx_mul(a.c, self.z),
        }
    }

    /// Rotation about the Y axis.
    pub fn rotated_y(&self, a: &Angle) -> (r: Vec3)
        requires
            rot2_valid(a@),
            self.in_range(ROT_INPUT_MAX as int),
        ensures
            r@ == v3_rot_y(self@, a@),
    {
        proof {
            lemma_fx_mul_bound(a@.c, self@.x, FX_ONE as int, ROT_INPUT_MAX as int);
            lemma_fx_mul_bound(a@.s, self@.z, FX_ONE as int, ROT_INPUT_MAX as int);
            lemma_fx_mul_bound(a@.c, self@.z, FX_ONE as int, ROT_INPUT_MAX as int);
            lemma_fx_mul_bound(a@.s, self@.x, FX_ONE as int, ROT_INPUT_MAX as int);
        }
        Vec3 {
            x: fx_mul(a.c, self.x) + fx_mul(a.s, self.z),
            y: self.y,
            z: fx_mul(a.c, self.z) - fx_mul(a.s, self.x),
        }
    }

    /// Rotation about the Z axis.
    pub fn rotated_z(&self, a: &Angle) -> (r: Vec3)
        requires
            rot2_valid(a@),
            self.in_range(ROT_INPUT_MAX as int),
        ensures
            r@ == v3_rot_z(self@, a@),
    {
        proof {
            lemma_fx_mul_bound(a@.c, self@.x, FX_ONE as int, ROT_INPUT_MAX as int);
            lemma_fx_mul_bound(a@.s, self@.y, FX_ONE as int, ROT_INPUT_MAX as int);
            lemma_fx_mul_bound(a@.s, self@.x, FX_ONE as int, ROT_INPUT_MAX as int);
            lemma_fx_mul_bound(a@.c, self@.y, FX_ONE as int, ROT_INPUT_MAX as int);
        }
        Vec3 {
            x: fx_mul(a.c, self.x) - fx_mul(a.s, self.y),
            y: fx_mul(a.s, self.x) + fx_mul(a.c, self.y),
            z: self.z,
        }
    }

    /// Euclidean norm of the raw coordinate triple: the unique integer `r`
    /// with `r * r <= x*x + y*y + z*z < (r+1) * (r+1)`. Because the
    /// coordinates count millionths of a unit, so does the result.
    pub fn norm(&self) -> (r: i64)
        requires
            self.in_range(2 * MAX_COORD as int),
        ensures
            r as int == isqrt_spec(v3_norm2(self@)),
            is_sqrt_of(v3_norm2(self@), r as int),
            0 <= r as int <= 4 * MAX_COORD as int,
    {
        proof {
            assert(0 <= self@.x * self@.x <= 4 * (MAX_COORD as int) * (MAX_COORD as int))
                by (nonlinear_arith)
                requires
                    abs_int(self@.x) <= 2 * MAX_COORD as int,
            ;
            assert(0 <= self@.y * self@.y <= 4 * (MAX_COORD as int) * (MAX_COORD as int))
                by (nonlinear_arith)
                requires
                    abs_int(self@.y) <= 2 * MAX_COORD as int,
            ;
            assert(0 <= self@.z * self@.z <= 4 * (MAX_COORD as int) * (MAX_COORD as int))
                by (nonlinear_arith)
                requires
                    abs_int(self@.z) <= 2 * MAX_COORD as int,
            ;
        }
        let xx: u128 = ((self.x as i128) * (self.x as i128)) as u128;
        let yy: u128 = ((self.y as i128) * (self.y as i128)) as u128;
        let zz: u128 = ((self.z as i128) * (self.z as i128)) as u128;
        let n: u128 = xx + yy + zz;
        let r: u128 = isqrt_u128(n);
        proof {
            assert(r as int <= 4 * MAX_COORD as int) by (nonlinear_arith)
                requires
                    (r as int) * (r as int) <= n as int,
                    n as int <= 12 * (MAX_COORD as int) * (MAX_COORD as int),
                    0 <= r as int,
                    MAX_COORD as int == 1_000_000_000_000,
            ;
        }
        r as i64
    }
}

/// The forward direction of a body whose orientation is given by its pitch
/// (rotation about X) and yaw (rotation about Y), in the engine convention
/// this simulation was calibrated against:
/// `(-sin yaw * cos pitch, sin pitch, -cos yaw * cos pitch)`.
pub open spec fn euler_dir_spec(pitch: Rot2, yaw: Rot2) -> V3 {
    V3 {
        x: -fx_mul_spec(yaw.s, pitch.c),
        y: pitch.s,
        z: -fx_mul_spec(yaw.c, pitch.c),
    }
}

/// Forward direction from pitch and yaw. The angles enter as sine/cosine
/// pairs; the contract states each coordinate exactly.
pub fn euler_to_dir_godot(pitch: &Angle, yaw: &Angle) -> (r: Vec3)
    requires
        rot2_valid(pitch@),
        rot2_valid(yaw@),
    ensures
        r@ == euler_dir_spec(pitch@, yaw@),
        r.in_range(FX_ONE as int),
{
    proof {
        lemma_fx_mul_bound(yaw@.s, pitch@.c, FX_ONE as int, FX_ONE as int);
        lemma_fx_mul_bound(yaw@.c, pitch@.c, FX_ONE as int, FX_ONE as int);
        assert((FX_ONE as int) * (FX_ONE as int) / (FX_ONE as int) == FX_ONE as int)
            by (nonlinear_arith)
            requires
                FX_ONE as int == 1_000_000,
        ;
    }
    Vec3 { x: -fx_mul(yaw.s, pitch.c), y: pitch.s, z: -fx_mul(yaw.c, pitch.c) }
}

} // verus!
