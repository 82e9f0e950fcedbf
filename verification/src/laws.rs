//! Laws of the update loop, stated over the spec-level step functions and
//! proved for every state and input they admit.

use vstd::prelude::*;
use crate::craft::altitude_consistent;
use crate::craft::CraftModel;
use crate::craft::Thruster;
use crate::dynamics::attitude_step;
use crate::dynamics::rot_x;
use crate::dynamics::rot_y;
use crate::dynamics::tick_step;
use crate::dynamics::world_accel_x;
use crate::dynamics::world_accel_y;
use crate::env::EnvironmentConstants;
use crate::fx::fxm;
use crate::fx::lemma_fxm_zero;
use crate::input::InputSnapshot;
use crate::trig::cos_fx;
use crate::trig::sin_fx;

verus! {

/// The state after ticking once per input in `inputs`, oldest first, with a
/// fixed time step.
pub open spec fn run_ticks(
    s: CraftModel,
    inputs: Seq<InputSnapshot>,
    dt: int,
    env: EnvironmentConstants,
) -> CraftModel
    decreases inputs.len(),
{
    if inputs.len() == 0 {
        s
    } else {
        tick_step(run_ticks(s, inputs.drop_last(), dt, env), inputs.last(), dt, env)
    }
}

/// Gravity-only drift: with nothing held, one tick leaves the orientation and
/// the horizontal velocity unchanged, switches the thruster off, and changes
/// the vertical velocity by exactly the gravity impulse, the fixed-point
/// product of `-gravity` and `dt`.
pub proof fn lemma_gravity_only_drift(
    s: CraftModel,
    input: InputSnapshot,
    dt: int,
    env: EnvironmentConstants,
)
    requires
        !input.rotate_left,
        !input.rotate_right,
        !input.boost_up,
    ensures
        tick_step(s, input, dt, env).orientation == s.orientation,
        tick_step(s, input, dt, env).thruster == Thruster::Off,
        tick_step(s, input, dt, env).velocity.x == s.velocity.x,
        tick_step(s, input, dt, env).velocity.y == s.velocity.y + fxm(0 - env.gravity as int, dt),
{
    lemma_fxm_zero(sin_fx(s.orientation));
    lemma_fxm_zero(cos_fx(s.orientation));
    lemma_fxm_zero(dt);
    assert(world_accel_x(input, s.orientation, env) == 0);
    assert(world_accel_y(input, s.orientation, env) == 0 - env.gravity as int);
}

/// Rotation priority: when both rotation directions are held, the left
/// thruster is selected and the orientation moves by exactly the left-hand
/// delta `+rcs_rate * dt`, never by the right-hand one.
pub proof fn lemma_rotation_priority(s: CraftModel, input: InputSnapshot, dt: int, rcs_rate: int)
    requires
        input.rotate_left,
        input.rotate_right,
    ensures
        attitude_step(s, input, dt, rcs_rate).thruster == Thruster::Left,
        attitude_step(s, input, dt, rcs_rate).orientation == s.orientation + fxm(rcs_rate, dt),
{
}

/// Thrust follows attitude: with gravity zero and the boost held, the
/// world-frame acceleration is exactly the body boost vector rotated by the
/// craft's orientation, in both components.
pub proof fn lemma_thrust_follows_attitude(
    input: InputSnapshot,
    theta: int,
    env: EnvironmentConstants,
)
    requires
        input.boost_up,
        env.gravity == 0,
    ensures
        world_accel_x(input, theta, env) == rot_x(0, env.boost_magnitude as int, theta),
        world_accel_y(input, theta, env) == rot_y(0, env.boost_magnitude as int, theta),
{
}

/// Altitude derivation: after any tick, the altitude equals the baseline
/// plus the fresh vertical position; it is never independently mutated.
pub proof fn lemma_altitude_derived(
    s: CraftModel,
    input: InputSnapshot,
    dt: int,
    env: EnvironmentConstants,
)
    ensures
        altitude_consistent(tick_step(s, input, dt, env), env),
{
}

/// Altitude derivation over any run: starting consistent, the altitude
/// equals the baseline plus the vertical position after every sequence of
/// ticks.
pub proof fn lemma_altitude_invariant_after_run(
    s: CraftModel,
    inputs: Seq<InputSnapshot>,
    dt: int,
    env: EnvironmentConstants,
)
    requires
        altitude_consistent(s, env),
    ensures
        altitude_consistent(run_ticks(s, inputs, dt, env), env),
    decreases inputs.len(),
{
    if inputs.len() > 0 {
        lemma_altitude_invariant_after_run(s, inputs.drop_last(), dt, env);
        lemma_altitude_derived(run_ticks(s, inputs.drop_last(), dt, env), inputs.last(), dt, env);
    }
}

/// Idempotent zero-input steady state: a tick with a zero time step leaves
/// position, velocity and orientation unchanged, however often it is
/// repeated.
pub proof fn lemma_zero_dt_steady_state(s: CraftModel, input: InputSnapshot, env: EnvironmentConstants)
    ensures
        tick_step(s, input, 0, env).position.x == s.position.x,
        tick_step(s, input, 0, env).position.y == s.position.y,
        tick_step(s, input, 0, env).velocity.x == s.velocity.x,
        tick_step(s, input, 0, env).velocity.y == s.velocity.y,
        tick_step(s, input, 0, env).orientation == s.orientation,
{
    let s1 = attitude_step(s, input, 0, env.rcs_rate as int);
    lemma_fxm_zero(env.rcs_rate as int);
    lemma_fxm_zero(world_accel_x(input, s1.orientation, env));
    lemma_fxm_zero(world_accel_y(input, s1.orientation, env));
    lemma_fxm_zero(s.velocity.x);
    lemma_fxm_zero(s.velocity.y);
}

} // verus!
