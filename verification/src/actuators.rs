//! Actuator primitives: force and command laws.
//!
//! Each actuator holds one scalar parameter, written by the controller, and
//! computes from plain values the force or command the host applies to its
//! rigid body: a thruster scales its forward direction, a balloon emits a
//! constant buoyant force, a fin opposes the velocity component along its
//! forward axis, a servo commands a motor velocity proportional to its
//! remaining angle error.

use vstd::prelude::*;

verus! {

use crate::fixed::FX_ONE;
use crate::fixed::MAX_COORD;
use crate::fixed::abs_int;
use crate::fixed::fx_mul;
use crate::fixed::fx_mul_spec;
use crate::fixed::isqrt_spec;
use crate::fixed::lemma_fx_mul_bound;
use crate::geom::Angle;
use crate::geom::V3;
use crate::geom::Vec3;
use crate::geom::euler_dir_spec;
use crate::geom::euler_to_dir_godot;
use crate::geom::rot2_valid;
use crate::geom::v3_dot;
use crate::geom::v3_neg;
use crate::geom::v3_norm2;
use crate::geom::v3_scale;

/// The world-frame force of a fin: the drag coefficient times the velocity
/// component along the fin's forward axis, directed against that axis:
/// `-(coefficient * dot(forward, velocity)) * forward`.
pub open spec fn fin_drag_spec(coefficient: int, forward: V3, velocity: V3) -> V3 {
    v3_neg(v3_scale(fx_mul_spec(coefficient, v3_dot(forward, velocity)), forward))
}

/// Emits a force along its own forward direction, scaled by one thrust
/// magnitude the controller writes each tick.
pub struct Thruster {
    thrust: i64,
}

impl Thruster {
    /// The thrust magnitude stays within a world coordinate.
    pub closed spec fn wf(&self) -> bool {
        abs_int(self.thrust as int) <= MAX_COORD as int
    }

    /// The stored thrust magnitude, as the model sees it.
    pub closed spec fn thrust_spec(&self) -> int {
        self.thrust as int
    }

    pub fn new(thrust: i64) -> (r: Thruster)
        requires
            abs_int(thrust as int) <= MAX_COORD as int,
        ensures
            r.wf(),
            r.thrust_spec() == thrust as int,
    {
        Thruster { thrust }
    }

    /// The stored thrust magnitude.
    pub fn thrust(&self) -> (r: i64)
        ensures
            r as int == self.thrust_spec(),
    {
        self.thrust
    }

    /// Overwrites the thrust magnitude, the controller's per-tick write.
    pub fn set_thrust(&mut self, thrust: i64)
        requires
            abs_int(thrust as int) <= MAX_COORD as int,
        ensures
            final(self).wf(),
            final(self).thrust_spec() == thrust as int,
    {
        self.thrust = thrust;
    }

    /// The world-frame force this tick: the thrust magnitude along the
    /// forward direction of the given orientation.
    pub fn force(&self, pitch: &Angle, yaw: &Angle) -> (r: Vec3)
        requires
            self.wf(),
            rot2_valid(pitch@),
            rot2_valid(yaw@),
        ensures
            r@ == v3_scale(self.thrust_spec(), euler_dir_spec(pitch@, yaw@)),
    {
        let dir = euler_to_dir_godot(pitch, yaw);
        dir.scaled(self.thrust)
    }
}

/// Emits a constant world-frame buoyant force, independent of orientation.
pub struct Balloon {
    buoyancy: Vec3,
}

impl Balloon {
    /// The stored buoyant force, as the model sees it.
    pub closed spec fn buoyancy_spec(&self) -> V3 {
        self.buoyancy@
    }

    pub fn new(buoyancy: Vec3) -> (r: Balloon)
        ensures
            r.buoyancy_spec() == buoyancy@,
    {
        Balloon { buoyancy }
    }

    /// The force to apply this tick: always the stored buoyancy, whole.
    pub fn force(&self) -> (r: Vec3)
        ensures
            r@ == self.buoyancy_spec(),
    {
        self.buoyancy
    }
}

/// Opposes motion along its own forward axis.
pub struct Fin {
    fin_drag: i64,
}

impl Fin {
    /// The drag coefficient stays small enough for the force product.
    pub closed spec fn wf(&self) -> bool {
        abs_int(self.fin_drag as int) <= MAX_COORD as int / 8
    }

    /// The stored drag coefficient, as the model sees it.
    pub closed spec fn coefficient(&self) -> int {
        self.fin_drag as int
    }

    pub fn new(fin_drag: i64) -> (r: Fin)
        requires
            abs_int(fin_drag as int) <= MAX_COORD as int / 8,
        ensures
            r.wf(),
            r.coefficient() == fin_drag as int,
    {
        Fin { fin_drag }
    }

    /// The stored drag coefficient.
    pub fn fin_drag(&self) -> (r: i64)
        ensures
            r as int == self.coefficient(),
    {
        self.fin_drag
    }

    /// The world-frame drag force this tick, from the fin's forward
    /// direction (a unit-scale vector) and the body's velocity: exactly
    /// opposite the velocity component along the forward axis, scaled by
    /// the coefficient.
    pub fn drag_force(&self, forward: &Vec3, velocity: &Vec3) -> (r: Vec3)
        requires
            self.wf(),
            forward.in_range(2 * FX_ONE as int),
            velocity.in_range(MAX_COORD as int),
        ensures
            r@ == fin_drag_spec(self.coefficient(), forward@, velocity@),
    {
        let d = forward.dot(velocity);
        proof {
            lemma_fx_mul_bound(forward@.x, velocity@.x, 2 * FX_ONE as int, MAX_COORD as int);
            lemma_fx_mul_bound(forward@.y, velocity@.y, 2 * FX_ONE as int, MAX_COORD as int);
            lemma_fx_mul_bound(forward@.z, velocity@.z, 2 * FX_ONE as int, MAX_COORD as int);
            lemma_fx_mul_bound(
                self.fin_drag as int,
                d as int,
                MAX_COORD as int / 8,
                6 * MAX_COORD as int,
            );
        }
        let cd = fx_mul(self.fin_drag, d);
        proof {
            lemma_fx_mul_bound(cd as int, forward@.x, 750_000_000_000_000_000, 2 * FX_ONE as int);
            lemma_fx_mul_bound(cd as int, forward@.y, 750_000_000_000_000_000, 2 * FX_ONE as int);
            lemma_fx_mul_bound(cd as int, forward@.z, 750_000_000_000_000_000, 2 * FX_ONE as int);
        }
        Vec3 {
            x: -fx_mul(cd, forward.x),
            y: -fx_mul(cd, forward.y),
            z: -fx_mul(cd, forward.z),
        }
    }
}

/// A proportional angle controller on a hinge: commands a motor velocity
/// toward its target angle.
pub struct Servo {
    constant: i64,
    damping: i64,
    target_angle: i64,
}

impl Servo {
    /// Gain and target stay within the bounds of the command product.
    pub closed spec fn wf(&self) -> bool {
        &&& abs_int(self.constant as int) <= MAX_COORD as int / 4
        &&& abs_int(self.target_angle as int) <= MAX_COORD as int
    }

    /// The stored proportional gain, as the model sees it.
    pub closed spec fn constant_spec(&self) -> int {
        self.constant as int
    }

    /// The stored damping parameter, as the model sees it.
    pub closed spec fn damping_spec(&self) -> int {
        self.damping as int
    }

    /// The stored target angle, as the model sees it.
    pub closed spec fn target_angle_spec(&self) -> int {
        self.target_angle as int
    }

    pub fn new(constant: i64, damping: i64, target_angle: i64) -> (r: Servo)
        requires
            abs_int(constant as int) <= MAX_COORD as int / 4,
            abs_int(target_angle as int) <= MAX_COORD as int,
        ensures
            r.wf(),
            r.constant_spec() == constant as int,
            r.damping_spec() == damping as int,
            r.target_angle_spec() == target_angle as int,
    {
        Servo { constant, damping, target_angle }
    }

    /// The motor velocity to command this tick: the gain times the angle
    /// error, the target minus the magnitude of the joint's local rotation
    /// vector (its euclidean norm, a simplification of a single-axis
    /// angle).
    pub fn motor_target_velocity(&self, rotation: &Vec3) -> (r: i64)
        requires
            self.wf(),
            rotation.in_range(MAX_COORD as int),
        ensures
            r as int == fx_mul_spec(
                self.constant_spec(),
                self.target_angle_spec() - isqrt_spec(v3_norm2(rotation@)),
            ),
    {
        let angle = rotation.norm();
        let d_angle = self.target_angle - angle;
        proof {
            lemma_fx_mul_bound(
                self.constant as int,
                d_angle as int,
                MAX_COORD as int / 4,
                5 * MAX_COORD as int,
            );
        }
        fx_mul(self.constant, d_angle)
    }
}

} // verus!
