//! Differential thrust allocation.
//!
//! The three-axis throttle state maps onto four thrusters: turning
//! authority is applied antisymmetrically to the right and left channels,
//! the vertical channel uniformly to both bottom thrusters. Pure,
//! deterministic, stateless.

use vstd::prelude::*;

verus! {

use crate::fixed::fits_i64;

/// The mathematical model of a [`ThrustCommand`].
pub ghost struct ThrustV {
    pub right: int,
    pub left: int,
    pub bottom_right: int,
    pub bottom_left: int,
}

/// One tick's scalar thrust command per thruster.
#[derive(Clone, Copy, PartialEq, Eq, Structural, Debug)]
pub struct ThrustCommand {
    pub right: i64,
    pub left: i64,
    pub bottom_right: i64,
    pub bottom_left: i64,
}

impl View for ThrustCommand {
    type V = ThrustV;

    open spec fn view(&self) -> ThrustV {
        ThrustV {
            right: self.right as int,
            left: self.left as int,
            bottom_right: self.bottom_right as int,
            bottom_left: self.bottom_left as int,
        }
    }
}

/// The allocation rule: `right = forward - turn`, `left = forward + turn`,
/// both bottom channels carry `vertical`.
pub open spec fn allocate_spec(forward: int, turn: int, vertical: int) -> ThrustV {
    ThrustV {
        right: forward - turn,
        left: forward + turn,
        bottom_right: vertical,
        bottom_left: vertical,
    }
}

/// Per-thruster thrust from the three-axis throttle state.
pub fn allocate(forward: i64, turn: i64, vertical: i64) -> (r: ThrustCommand)
    requires
        fits_i64(forward as int - turn as int),
        fits_i64(forward as int + turn as int),
    ensures
        r@ == allocate_spec(forward as int, turn as int, vertical as int),
{
    ThrustCommand {
        right: forward - turn,
        left: forward + turn,
        bottom_right: vertical,
        bottom_left: vertical,
    }
}

/// Allocation is a pure function of its inputs: two allocations of the same
/// throttle state are the same command, with no hidden state to diverge.
pub proof fn lemma_allocate_deterministic(
    c1: ThrustV,
    c2: ThrustV,
    forward: int,
    turn: int,
    vertical: int,
)
    requires
        c1 == allocate_spec(forward, turn, vertical),
        c2 == allocate_spec(forward, turn, vertical),
    ensures
        c1 == c2,
{
}

} // verus!
