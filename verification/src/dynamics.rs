//! The per-tick update: attitude control followed by translational
//! integration, exactly in the order the spec functions below spell out.

use vstd::prelude::*;
use crate::craft::CraftModel;
use crate::craft::CraftState;
use crate::craft::Thruster;
use crate::craft::Vec2Model;
use crate::env::EnvironmentConstants;
use crate::fx::fits_i64;
use crate::fx::fx_add_checked;
use crate::fx::fx_mul;
use crate::fx::fx_mul_checked;
use crate::fx::fx_sub_checked;
use crate::fx::fxm;
use crate::fx::lemma_fxm_zero;
use crate::input::InputSnapshot;
use crate::trig::cos_bits;
use crate::trig::cos_fx;
use crate::trig::sin_bits;
use crate::trig::sin_fx;

verus! {

/// X component of a body-frame vector rotated into the world frame by the
/// angle `theta`.
pub open spec fn rot_x(x: int, y: int, theta: int) -> int {
    fxm(x, cos_fx(theta)) - fxm(y, sin_fx(theta))
}

/// Y component of a body-frame vector rotated into the world frame by the
/// angle `theta`.
pub open spec fn rot_y(x: int, y: int, theta: int) -> int {
    fxm(x, sin_fx(theta)) + fxm(y, cos_fx(theta))
}

/// Body-frame vertical acceleration commanded this tick: the configured boost
/// when `boost_up` is held, zero otherwise. Thrust is binary; there is no
/// partial throttle.
pub open spec fn body_boost(input: InputSnapshot, env: EnvironmentConstants) -> int {
    if input.boost_up {
        env.boost_magnitude as int
    } else {
        0
    }
}

/// X component of the world-frame acceleration: the body boost vector
/// `(0, body_boost)` rotated by the craft attitude. Gravity has no X part.
pub open spec fn world_accel_x(input: InputSnapshot, theta: int, env: EnvironmentConstants) -> int {
    rot_x(0, body_boost(input, env), theta)
}

/// Y component of the world-frame acceleration: the rotated boost, minus
/// gravity along the fixed world-down axis. Gravity is never rotated.
pub open spec fn world_accel_y(input: InputSnapshot, theta: int, env: EnvironmentConstants) -> int {
    rot_y(0, body_boost(input, env), theta) - env.gravity as int
}

/// Attitude control: thruster selection and incremental rotation, evaluated
/// fresh every tick with no latching. `rotate_left` takes priority when both
/// directions are held.
pub open spec fn attitude_step(
    s: CraftModel,
    input: InputSnapshot,
    dt: int,
    rcs_rate: int,
) -> CraftModel {
    if input.rotate_left {
        CraftModel {
            position: s.position,
            orientation: s.orientation + fxm(rcs_rate, dt),
            velocity: s.velocity,
            thruster: Thruster::Left,
            altitude: s.altitude,
        }
    } else if input.rotate_right {
        CraftModel {
            position: s.position,
            orientation: s.orientation - fxm(rcs_rate, dt),
            velocity: s.velocity,
            thruster: Thruster::Right,
            altitude: s.altitude,
        }
    } else {
        CraftModel {
            position: s.position,
            orientation: s.orientation,
            velocity: s.velocity,
            thruster: Thruster::Off,
            altitude: s.altitude,
        }
    }
}

/// Translational integration, in this exact order: rotate the body boost into
/// the world frame by the current orientation, subtract gravity from the
/// world vertical, integrate velocity from that acceleration, integrate
/// position from the already-updated velocity (semi-implicit Euler), then
/// derive the altitude.
pub open spec fn integrate_step(
    s: CraftModel,
    input: InputSnapshot,
    dt: int,
    env: EnvironmentConstants,
) -> CraftModel {
    let ax = world_accel_x(input, s.orientation, env);
    let ay = world_accel_y(input, s.orientation, env);
    let vx = s.velocity.x + fxm(ax, dt);
    let vy = s.velocity.y + fxm(ay, dt);
    let px = s.position.x + fxm(vx, dt);
    let py = s.position.y + fxm(vy, dt);
    CraftModel {
        position: Vec2Model { x: px, y: py },
        orientation: s.orientation,
        velocity: Vec2Model { x: vx, y: vy },
        thruster: s.thruster,
        altitude: env.baseline_altitude as int + py,
    }
}

/// One whole tick: attitude control, then integration using the orientation
/// attitude control just produced.
pub open spec fn tick_step(
    s: CraftModel,
    input: InputSnapshot,
    dt: int,
    env: EnvironmentConstants,
) -> CraftModel {
    integrate_step(attitude_step(s, input, dt, env.rcs_rate as int), input, dt, env)
}

/// Every intermediate of the attitude stage is representable as a raw scalar.
pub open spec fn attitude_fits(
    s: CraftModel,
    input: InputSnapshot,
    dt: int,
    rcs_rate: int,
) -> bool {
    if input.rotate_left {
        fits_i64(fxm(rcs_rate, dt)) && fits_i64(s.orientation + fxm(rcs_rate, dt))
    } else if input.rotate_right {
        fits_i64(fxm(rcs_rate, dt)) && fits_i64(s.orientation - fxm(rcs_rate, dt))
    } else {
        true
    }
}

/// Every intermediate of the integration stage is representable as a raw
/// scalar. This is exactly what machine limits force, nothing narrower.
pub open spec fn integrate_fits(
    s: CraftModel,
    input: InputSnapshot,
    dt: int,
    env: EnvironmentConstants,
) -> bool {
    let b = body_boost(input, env);
    let theta = s.orientation;
    let ax = world_accel_x(input, theta, env);
    let ay = world_accel_y(input, theta, env);
    let vx = s.velocity.x + fxm(ax, dt);
    let vy = s.velocity.y + fxm(ay, dt);
    let px = s.position.x + fxm(vx, dt);
    let py = s.position.y + fxm(vy, dt);
    fits_i64(fxm(b, sin_fx(theta))) && fits_i64(ax) && fits_i64(fxm(b, cos_fx(theta))) && fits_i64(
        ay,
    ) && fits_i64(fxm(ax, dt)) && fits_i64(vx) && fits_i64(fxm(ay, dt)) && fits_i64(vy) && fits_i64(
        fxm(vx, dt),
    ) && fits_i64(px) && fits_i64(fxm(vy, dt)) && fits_i64(py) && fits_i64(
        env.baseline_altitude as int + py,
    )
}

/// Every intermediate of a whole tick is representable as a raw scalar.
pub open spec fn tick_fits(
    s: CraftModel,
    input: InputSnapshot,
    dt: int,
    env: EnvironmentConstants,
) -> bool {
    attitude_fits(s, input, dt, env.rcs_rate as int) && integrate_fits(
        attitude_step(s, input, dt, env.rcs_rate as int),
        input,
        dt,
        env,
    )
}

/// Attitude-control stage of one tick.
pub fn update_attitude(state: &mut CraftState, input: &InputSnapshot, dt: i64, rcs_rate: i64)
    requires
        attitude_fits(old(state)@, *input, dt as int, rcs_rate as int),
    ensures
        final(state)@ == attitude_step(old(state)@, *input, dt as int, rcs_rate as int),
{
    if input.rotate_left {
        let delta = fx_mul(rcs_rate, dt);
        state.orientation = state.orientation + delta;
        state.thruster = Thruster::Left;
    } else if input.rotate_right {
        let delta = fx_mul(rcs_rate, dt);
        state.orientation = state.orientation - delta;
        state.thruster = Thruster::Right;
    } else {
        state.thruster = Thruster::Off;
    }
}

/// Translational-integration stage of one tick.
pub fn integrate(state: &mut CraftState, input: &InputSnapshot, dt: i64, env: &EnvironmentConstants)
    requires
        integrate_fits(old(state)@, *input, dt as int, *env),
    ensures
        final(state)@ == integrate_step(old(state)@, *input, dt as int, *env),
{
    let theta = state.orientation;
    let c = cos_bits(theta);
    let sn = sin_bits(theta);
    let b: i64 = if input.boost_up {
        env.boost_magnitude
    } else {
        0
    };
    proof {
        lemma_fxm_zero(sin_fx(theta as int));
        lemma_fxm_zero(cos_fx(theta as int));
    }
    let t_sin = fx_mul(b, sn);
    let t_cos = fx_mul(b, c);
    let ax: i64 = 0 - t_sin;
    let ay: i64 = t_cos - env.gravity;
    let dvx = fx_mul(ax, dt);
    let dvy = fx_mul(ay, dt);
    let vx = state.velocity.x + dvx;
    let vy = state.velocity.y + dvy;
    let px = state.position.x + fx_mul(vx, dt);
    let py = state.position.y + fx_mul(vy, dt);
    state.velocity.x = vx;
    state.velocity.y = vy;
    state.position.x = px;
    state.position.y = py;
    state.altitude = env.baseline_altitude + py;
}

/// One whole tick of the update loop: attitude control, then translational
/// integration with the attitude this tick just produced.
pub fn tick(state: &mut CraftState, input: &InputSnapshot, dt: i64, env: &EnvironmentConstants)
    requires
        tick_fits(old(state)@, *input, dt as int, *env),
    ensures
        final(state)@ == tick_step(old(state)@, *input, dt as int, *env),
{
    update_attitude(state, input, dt, env.rcs_rate);
    integrate(state, input, dt, env);
}

/// One tick guarded at run time: performs the tick exactly when every
/// intermediate of the step is representable, and reports which happened.
/// When it returns `false` the state is untouched.
pub fn try_tick(
    state: &mut CraftState,
    input: &InputSnapshot,
    dt: i64,
    env: &EnvironmentConstants,
) -> (stepped: bool)
    ensures
        tick_fits(old(state)@, *input, dt as int, *env) ==> stepped && final(state)@ == tick_step(
            old(state)@,
            *input,
            dt as int,
            *env,
        ),
        !tick_fits(old(state)@, *input, dt as int, *env) ==> !stepped && *final(state) == *old(
            state,
        ),
{
    let theta2: i64;
    if input.rotate_left {
        let delta = match fx_mul_checked(env.rcs_rate, dt) {
            Some(d) => d,
            None => {
                return false;
            },
        };
        theta2 = match fx_add_checked(state.orientation, delta) {
            Some(t) => t,
            None => {
                return false;
            },
        };
    } else if input.rotate_right {
        let delta = match fx_mul_checked(env.rcs_rate, dt) {
            Some(d) => d,
            None => {
                return false;
            },
        };
        theta2 = match fx_sub_checked(state.orientation, delta) {
            Some(t) => t,
            None => {
                return false;
            },
        };
    } else {
        theta2 = state.orientation;
    }
    let c = cos_bits(theta2);
    let sn = sin_bits(theta2);
    let b: i64 = if input.boost_up {
        env.boost_magnitude
    } else {
        0
    };
    proof {
        lemma_fxm_zero(sin_fx(theta2 as int));
        lemma_fxm_zero(cos_fx(theta2 as int));
    }
    let t_sin = match fx_mul_checked(b, sn) {
        Some(v) => v,
        None => {
            return false;
        },
    };
    let ax = match fx_sub_checked(0, t_sin) {
        Some(v) => v,
        None => {
            return false;
        },
    };
    let t_cos = match fx_mul_checked(b, c) {
        Some(v) => v,
        None => {
            return false;
        },
    };
    let ay = match fx_sub_checked(t_cos, env.gravity) {
        Some(v) => v,
        None => {
            return false;
        },
    };
    let dvx = match fx_mul_checked(ax, dt) {
        Some(v) => v,
        None => {
            return false;
        },
    };
    let vx = match fx_add_checked(state.velocity.x, dvx) {
        Some(v) => v,
        None => {
            return false;
        },
    };
    let dvy = match fx_mul_checked(ay, dt) {
        Some(v) => v,
        None => {
            return false;
        },
    };
    let vy = match fx_add_checked(state.velocity.y, dvy) {
        Some(v) => v,
        None => {
            return false;
        },
    };
    let dpx = match fx_mul_checked(vx, dt) {
        Some(v) => v,
        None => {
            return false;
        },
    };
    let px = match fx_add_checked(state.position.x, dpx) {
        Some(v) => v,
        None => {
            return false;
        },
    };
    let dpy = match fx_mul_checked(vy, dt) {
        Some(v) => v,
        None => {
            return false;
        },
    };
    let py = match fx_add_checked(state.position.y, dpy) {
        Some(v) => v,
        None => {
            return false;
        },
    };
    if fx_add_checked(env.baseline_altitude, py).is_none() {
        return false;
    }
    tick(state, input, dt, env);
    true
}

} // verus!
