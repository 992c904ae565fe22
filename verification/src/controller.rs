//! The flight control loop's decision core.
//!
//! An [`AirshipController`] owns the control palette and the three-axis
//! throttle state. Each tick the host polls the input device into the
//! palette through [`AirshipController::poll`]; [`AirshipController::update`]
//! then integrates the throttle from the held keys — an integrator with no
//! clamp and no decay, so throttle persists once set — and allocates the
//! four thrust commands. The calibrated sign convention: forward throttle
//! grows on the back key minus the forward key, turn on left minus right,
//! vertical on up minus down.

use vstd::prelude::*;

verus! {

use crate::fixed::abs_int;
use crate::palette::ConfigurationError;
use crate::palette::ControlPalette;
use crate::palette::has_key;
use crate::palette::key_views;
use crate::palette::keys_unique;
use crate::thrust::ThrustCommand;
use crate::thrust::allocate;
use crate::thrust::allocate_spec;

/// Largest raw throttle magnitude the controller admits, leaving room for
/// the thrust sums below `i64::MAX`.
pub const THROTTLE_LIMIT: i64 = 1_000_000_000_000_000_000;

/// Largest raw throttle rate, so that one tick's step keeps the limit.
pub const RATE_LIMIT: i64 = 1_000_000_000_000;

/// The mathematical model of the three-axis throttle.
pub ghost struct ThrottleState {
    pub forward: int,
    pub turn: int,
    pub vertical: int,
}

/// A held key read as one, a released key as zero.
pub open spec fn sig(b: bool) -> int {
    if b {
        1
    } else {
        0
    }
}

/// One tick of throttle integration under the calibrated convention:
/// `forward += rate * (back - forward_key)`, `turn += rate * (left - right)`,
/// `vertical += rate * (up - down)`. No clamp, no decay.
pub open spec fn throttle_step(
    t: ThrottleState,
    rate: int,
    forward_key: bool,
    left_key: bool,
    back_key: bool,
    right_key: bool,
    down_key: bool,
    up_key: bool,
) -> ThrottleState {
    ThrottleState {
        forward: t.forward + rate * (sig(back_key) - sig(forward_key)),
        turn: t.turn + rate * (sig(left_key) - sig(right_key)),
        vertical: t.vertical + rate * (sig(up_key) - sig(down_key)),
    }
}

/// The throttle after `n` ticks with only the forward key held.
pub open spec fn throttle_after_held_forward(t0: ThrottleState, rate: int, n: nat) -> ThrottleState
    decreases n,
{
    if n == 0 {
        t0
    } else {
        throttle_step(
            throttle_after_held_forward(t0, rate, (n - 1) as nat),
            rate,
            true,
            false,
            false,
            false,
            false,
            false,
        )
    }
}

/// Holding the forward key for `n` ticks accumulates exactly `n` rate steps
/// on the forward axis — monotonic, unclamped — and moves no other axis.
pub proof fn lemma_throttle_accumulation(t0: ThrottleState, rate: int, n: nat)
    ensures
        throttle_after_held_forward(t0, rate, n).forward == t0.forward - n * rate,
        throttle_after_held_forward(t0, rate, n).turn == t0.turn,
        throttle_after_held_forward(t0, rate, n).vertical == t0.vertical,
    decreases n,
{
    if n > 0 {
        lemma_throttle_accumulation(t0, rate, (n - 1) as nat);
        let prev = throttle_after_held_forward(t0, rate, (n - 1) as nat);
        assert(throttle_after_held_forward(t0, rate, n) == throttle_step(
            prev,
            rate,
            true,
            false,
            false,
            false,
            false,
            false,
        ));
        assert(rate * (sig(false) - sig(true)) == -rate) by (nonlinear_arith);
        assert(rate * (sig(false) - sig(false)) == 0) by (nonlinear_arith);
        assert(prev.forward - rate == t0.forward - n * rate) by (nonlinear_arith)
            requires
                prev.forward == t0.forward - (n - 1) * rate,
                n >= 1,
        ;
    } else {
        assert(n * rate == 0) by (nonlinear_arith)
            requires
                n == 0,
        ;
    }
}

/// With no key held the integrator is the identity: released keys leave the
/// throttle exactly where it was, with no return to neutral.
pub proof fn lemma_throttle_holds_without_input(t: ThrottleState, rate: int)
    ensures
        throttle_step(t, rate, false, false, false, false, false, false) == t,
{
}

/// The signed rate step of one axis, written without a product: the form
/// the integrator computes.
proof fn lemma_rate_sig(rate: int, a: bool, b: bool)
    ensures
        rate * (sig(a) - sig(b)) == (if a {
            rate
        } else {
            0
        }) - (if b {
            rate
        } else {
            0
        }),
{
    assert(rate * 1 == rate && rate * 0 == 0 && rate * (0 - 1) == -rate) by (nonlinear_arith);
}

/// Orchestrates one airship: control palette, throttle integration and
/// thrust allocation.
pub struct AirshipController {
    controls: ControlPalette,
    key_forward: String,
    key_left: String,
    key_back: String,
    key_right: String,
    key_down: String,
    key_up: String,
    throttle_rate: i64,
    forward_throttle: i64,
    turn_throttle: i64,
    vertical_throttle: i64,
}

impl AirshipController {
    /// The palette is well formed and tracks all six control keys; rate and
    /// throttle lie within the machine limits.
    pub closed spec fn wf(&self) -> bool {
        &&& self.controls.wf()
        &&& has_key(self.controls.key_seq(), self.key_forward@)
        &&& has_key(self.controls.key_seq(), self.key_left@)
        &&& has_key(self.controls.key_seq(), self.key_back@)
        &&& has_key(self.controls.key_seq(), self.key_right@)
        &&& has_key(self.controls.key_seq(), self.key_down@)
        &&& has_key(self.controls.key_seq(), self.key_up@)
        &&& 0 <= self.throttle_rate <= RATE_LIMIT
        &&& abs_int(self.forward_throttle as int) <= THROTTLE_LIMIT as int
        &&& abs_int(self.turn_throttle as int) <= THROTTLE_LIMIT as int
        &&& abs_int(self.vertical_throttle as int) <= THROTTLE_LIMIT as int
    }

    /// The throttle state, as the model sees it.
    pub closed spec fn throttle(&self) -> ThrottleState {
        ThrottleState {
            forward: self.forward_throttle as int,
            turn: self.turn_throttle as int,
            vertical: self.vertical_throttle as int,
        }
    }

    /// The per-tick integration rate.
    pub closed spec fn rate(&self) -> int {
        self.throttle_rate as int
    }

    /// The palette's key-to-pressed map.
    pub closed spec fn controls_view(&self) -> Map<Seq<char>, bool> {
        self.controls@
    }

    /// The tracked key names, in construction order.
    pub closed spec fn tracked_keys(&self) -> Seq<Seq<char>> {
        self.controls.key_seq()
    }

    /// The six control key names, in the order forward, left, back, right,
    /// down, up.
    pub closed spec fn control_keys(&self) -> Seq<Seq<char>> {
        seq![
            self.key_forward@,
            self.key_left@,
            self.key_back@,
            self.key_right@,
            self.key_down@,
            self.key_up@,
        ]
    }

    /// A new controller over six control keys, given in the order forward,
    /// left, back, right, down, up, with the starting throttle state. Fails
    /// with `DuplicateKey` exactly when two keys are equal; every key starts
    /// released.
    pub fn new(
        keys: Vec<String>,
        throttle_rate: i64,
        forward_throttle: i64,
        turn_throttle: i64,
        vertical_throttle: i64,
    ) -> (r: Result<AirshipController, ConfigurationError>)
        requires
            keys@.len() == 6,
            0 <= throttle_rate <= RATE_LIMIT,
            abs_int(forward_throttle as int) <= THROTTLE_LIMIT as int,
            abs_int(turn_throttle as int) <= THROTTLE_LIMIT as int,
            abs_int(vertical_throttle as int) <= THROTTLE_LIMIT as int,
        ensures
            r is Ok <==> keys_unique(key_views(keys@)),
            r matches Ok(c) ==> c.wf() && c.control_keys() == key_views(keys@)
                && c.tracked_keys() == key_views(keys@) && c.rate() == throttle_rate as int
                && c.throttle() == (ThrottleState {
                forward: forward_throttle as int,
                turn: turn_throttle as int,
                vertical: vertical_throttle as int,
            }) && forall|k: Seq<char>|
                has_key(key_views(keys@), k) ==> #[trigger] c.controls_view()[k] == false,
            r matches Err(e) ==> e == ConfigurationError::DuplicateKey,
    {
        let key_forward = keys[0].clone();
        let key_left = keys[1].clone();
        let key_back = keys[2].clone();
        let key_right = keys[3].clone();
        let key_down = keys[4].clone();
        let key_up = keys[5].clone();
        let ghost kv = key_views(keys@);
        let controls = match ControlPalette::new(keys) {
            Ok(p) => p,
            Err(e) => {
                return Err(e);
            },
        };
        proof {
            assert(kv[0] == key_forward@ && kv[1] == key_left@ && kv[2] == key_back@ && kv[3]
                == key_right@ && kv[4] == key_down@ && kv[5] == key_up@);
        }
        let c = AirshipController {
            controls,
            key_forward,
            key_left,
            key_back,
            key_right,
            key_down,
            key_up,
            throttle_rate,
            forward_throttle,
            turn_throttle,
            vertical_throttle,
        };
        proof {
            assert(c.control_keys() =~= kv);
        }
        Ok(c)
    }

    /// Number of tracked keys.
    pub fn key_count(&self) -> (r: usize)
        ensures
            r == self.tracked_keys().len(),
    {
        self.controls.key_count()
    }

    /// The name of the tracked key at a position, for the host's input poll.
    pub fn key_name(&self, i: usize) -> (r: &String)
        requires
            i < self.tracked_keys().len(),
        ensures
            r@ == self.tracked_keys()[i as int],
    {
        self.controls.key_name(i)
    }

    /// Writes one key's polled state into the palette, leaving throttle,
    /// rate and key set untouched. Fails with `UnknownKey`, changing
    /// nothing, exactly when the key is untracked.
    pub fn poll(&mut self, key: &String, pressed: bool) -> (r: Result<(), ConfigurationError>)
        requires
            old(self).wf(),
        ensures
            final(self).wf(),
            final(self).throttle() == old(self).throttle(),
            final(self).rate() == old(self).rate(),
            final(self).control_keys() == old(self).control_keys(),
            final(self).tracked_keys() == old(self).tracked_keys(),
            has_key(old(self).tracked_keys(), key@) ==> r is Ok && final(self).controls_view()
                == old(self).controls_view().insert(key@, pressed),
            !has_key(old(self).tracked_keys(), key@) ==> r == Err::<(), ConfigurationError>(
                ConfigurationError::UnknownKey,
            ) && final(self).controls_view() == old(self).controls_view(),
    {
        self.controls.set_value(key, pressed)
    }

    /// The pressed state of a tracked key.
    pub fn get_value(&self, key: &String) -> (r: Result<bool, ConfigurationError>)
        requires
            self.wf(),
        ensures
            has_key(self.tracked_keys(), key@) ==> r == Ok::<bool, ConfigurationError>(
                self.controls_view()[key@],
            ),
            !has_key(self.tracked_keys(), key@) ==> r == Err::<bool, ConfigurationError>(
                ConfigurationError::UnknownKey,
            ),
    {
        self.controls.get_value(key)
    }

    /// One control tick: integrates the throttle from the six held-key
    /// signals under the calibrated sign convention, then allocates the four
    /// thrust commands from the new throttle state. The palette is only
    /// read; the lookups cannot fail, since the controller tracks its own
    /// keys.
    pub fn update(&mut self) -> (r: ThrustCommand)
        requires
            old(self).wf(),
            abs_int(old(self).throttle().forward) <= THROTTLE_LIMIT as int - RATE_LIMIT as int,
            abs_int(old(self).throttle().turn) <= THROTTLE_LIMIT as int - RATE_LIMIT as int,
            abs_int(old(self).throttle().vertical) <= THROTTLE_LIMIT as int - RATE_LIMIT as int,
        ensures
            final(self).wf(),
            final(self).rate() == old(self).rate(),
            final(self).control_keys() == old(self).control_keys(),
            final(self).tracked_keys() == old(self).tracked_keys(),
            final(self).controls_view() == old(self).controls_view(),
            final(self).throttle() == throttle_step(
                old(self).throttle(),
                old(self).rate(),
                old(self).controls_view()[old(self).control_keys()[0]],
                old(self).controls_view()[old(self).control_keys()[1]],
                old(self).controls_view()[old(self).control_keys()[2]],
                old(self).controls_view()[old(self).control_keys()[3]],
                old(self).controls_view()[old(self).control_keys()[4]],
                old(self).controls_view()[old(self).control_keys()[5]],
            ),
            r@ == allocate_spec(
                final(self).throttle().forward,
                final(self).throttle().turn,
                final(self).throttle().vertical,
            ),
    {
        proof {
            assert(self.control_keys()[0] == self.key_forward@);
            assert(self.control_keys()[1] == self.key_left@);
            assert(self.control_keys()[2] == self.key_back@);
            assert(self.control_keys()[3] == self.key_right@);
            assert(self.control_keys()[4] == self.key_down@);
            assert(self.control_keys()[5] == self.key_up@);
        }
        let forward_key = self.controls.get_value(&self.key_forward).unwrap();
        let left_key = self.controls.get_value(&self.key_left).unwrap();
        let back_key = self.controls.get_value(&self.key_back).unwrap();
        let right_key = self.controls.get_value(&self.key_right).unwrap();
        let down_key = self.controls.get_value(&self.key_down).unwrap();
        let up_key = self.controls.get_value(&self.key_up).unwrap();

        let rate = self.throttle_rate;
        let df: i64 = (if back_key {
            rate
        } else {
            0
        }) - (if forward_key {
            rate
        } else {
            0
        });
        let dt: i64 = (if left_key {
            rate
        } else {
            0
        }) - (if right_key {
            rate
        } else {
            0
        });
        let dv: i64 = (if up_key {
            rate
        } else {
            0
        }) - (if down_key {
            rate
        } else {
            0
        });
        proof {
            lemma_rate_sig(rate as int, back_key, forward_key);
            lemma_rate_sig(rate as int, left_key, right_key);
            lemma_rate_sig(rate as int, up_key, down_key);
        }
        self.forward_throttle = self.forward_throttle + df;
        self.turn_throttle = self.turn_throttle + dt;
        self.vertical_throttle = self.vertical_throttle + dv;
        allocate(self.forward_throttle, self.turn_throttle, self.vertical_throttle)
    }

    /// The forward-axis throttle.
    pub fn forward_throttle(&self) -> (r: i64)
        ensures
            r as int == self.throttle().forward,
    {
        self.forward_throttle
    }

    /// The turn-axis throttle.
    pub fn turn_throttle(&self) -> (r: i64)
        ensures
            r as int == self.throttle().turn,
    {
        self.turn_throttle
    }

    /// The vertical-axis throttle.
    pub fn vertical_throttle(&self) -> (r: i64)
        ensures
            r as int == self.throttle().vertical,
    {
        self.vertical_throttle
    }

    /// The per-tick integration rate.
    pub fn throttle_rate(&self) -> (r: i64)
        ensures
            r as int == self.rate(),
    {
        self.throttle_rate
    }
}

} // verus!
