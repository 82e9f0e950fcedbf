//! Flight-dynamics and attitude-control core of a 2D lunar-lander style
//! simulation: given per-frame player input and a fixed time step, it updates
//! a craft's orientation, velocity, position, and derived altitude under
//! constant gravity and optional thrust.
//!
//! All scalar quantities are signed 64-bit fixed-point numbers with 32
//! fractional bits (Q32.32): an `i64` whose value is `bits / 2^32` in real
//! units. This keeps the per-tick attitude and translation update exact,
//! while the trigonometric rotation of the thrust vector is delegated to a
//! fixed-point CORDIC routine.

mod craft;
mod dynamics;
mod env;
mod fx;
mod input;
mod laws;
mod sim;
mod trig;

pub use craft::altitude_consistent;
pub use craft::CraftModel;
pub use craft::CraftState;
pub use craft::Thruster;
pub use craft::Vec2Fx;
pub use craft::Vec2Model;
pub use dynamics::attitude_fits;
pub use dynamics::attitude_step;
pub use dynamics::body_boost;
pub use dynamics::integrate;
pub use dynamics::integrate_fits;
pub use dynamics::integrate_step;
pub use dynamics::rot_x;
pub use dynamics::rot_y;
pub use dynamics::tick;
pub use dynamics::tick_fits;
pub use dynamics::tick_step;
pub use dynamics::try_tick;
pub use dynamics::update_attitude;
pub use dynamics::world_accel_x;
pub use dynamics::world_accel_y;
pub use env::EnvironmentConstants;
pub use env::SimError;
pub use env::CALLISTO_GRAVITY;
pub use env::DEFAULT_BASELINE_ALTITUDE;
pub use env::DEFAULT_BOOST_MAGNITUDE;
pub use env::DEFAULT_RCS_RATE;
pub use env::EUROPA_GRAVITY;
pub use env::GANYMEDE_GRAVITY;
pub use env::IO_GRAVITY;
pub use env::MOON_GRAVITY;
pub use fx::fits_i64;
pub use fx::fx_add_checked;
pub use fx::fx_mul;
pub use fx::fx_mul_checked;
pub use fx::fx_sub_checked;
pub use fx::fxm;
pub use fx::FX_ONE;
pub use input::InputSnapshot;
pub use laws::lemma_altitude_derived;
pub use laws::lemma_altitude_invariant_after_run;
pub use laws::lemma_gravity_only_drift;
pub use laws::lemma_rotation_priority;
pub use laws::lemma_thrust_follows_attitude;
pub use laws::lemma_zero_dt_steady_state;
pub use laws::run_ticks;
pub use sim::publish_altitude;
pub use sim::DisplaySink;
pub use sim::Simulation;
pub use trig::cos_fx;
pub use trig::sin_fx;
