//! The simulated body and its mathematical model.

use vstd::prelude::*;
use crate::env::EnvironmentConstants;
use crate::fx::fits_i64;

verus! {

/// The reaction-control thruster selected this tick. It is a pure function of
/// the current input, recomputed every tick and never accumulated; beyond
/// driving the rotation it only selects a presentation cue.
#[derive(Clone, Copy, PartialEq, Eq, Structural, Debug)]
pub enum Thruster {
    /// No rotation input held.
    Off,
    /// Counter-clockwise reaction control firing.
    Left,
    /// Clockwise reaction control firing.
    Right,
}

/// A 2D vector of Q32.32 scalars.
#[derive(Clone, Copy, PartialEq, Eq, Structural, Debug)]
pub struct Vec2Fx {
    pub x: i64,
    pub y: i64,
}

/// Mathematical image of a `Vec2Fx`: both raw components as integers.
pub struct Vec2Model {
    pub x: int,
    pub y: int,
}

impl View for Vec2Fx {
    type V = Vec2Model;

    open spec fn view(&self) -> Vec2Model {
        Vec2Model { x: self.x as int, y: self.y as int }
    }
}

/// The single simulated body.
#[derive(Clone, Copy, PartialEq, Eq, Structural, Debug)]
pub struct CraftState {
    /// World-space location.
    pub position: Vec2Fx,
    /// Attitude: the rotation about the fixed viewing axis, in radians. It
    /// may accumulate without bound; it is only ever applied through the
    /// periodic rotation of the thrust vector.
    pub orientation: i64,
    /// World-space linear velocity.
    pub velocity: Vec2Fx,
    /// Thruster selection for this tick.
    pub thruster: Thruster,
    /// Derived readout: always `baseline_altitude + position.y`, never
    /// written except through that derivation.
    pub altitude: i64,
}

/// Mathematical image of a `CraftState`.
pub struct CraftModel {
    pub position: Vec2Model,
    pub orientation: int,
    pub velocity: Vec2Model,
    pub thruster: Thruster,
    pub altitude: int,
}

impl View for CraftState {
    type V = CraftModel;

    open spec fn view(&self) -> CraftModel {
        CraftModel {
            position: self.position@,
            orientation: self.orientation as int,
            velocity: self.velocity@,
            thruster: self.thruster,
            altitude: self.altitude as int,
        }
    }
}

/// The altitude field is exactly the configured baseline plus the vertical
/// position.
pub open spec fn altitude_consistent(s: CraftModel, env: EnvironmentConstants) -> bool {
    s.altitude == env.baseline_altitude as int + s.position.y
}

impl CraftState {
    /// A craft at the given pose, as at simulation start: zero velocity,
    /// thruster off, altitude derived from the baseline and the vertical
    /// position.
    pub fn new(env: &EnvironmentConstants, position: Vec2Fx, orientation: i64) -> (c: Self)
        requires
            fits_i64(env.baseline_altitude as int + position.y as int),
        ensures
            c.position == position,
            c.orientation == orientation,
            c.velocity.x == 0 && c.velocity.y == 0,
            c.thruster == Thruster::Off,
            c.altitude as int == env.baseline_altitude as int + position.y as int,
            altitude_consistent(c@, *env),
    {
        CraftState {
            position,
            orientation,
            velocity: Vec2Fx { x: 0, y: 0 },
            thruster: Thruster::Off,
            altitude: env.baseline_altitude + position.y,
        }
    }
}

} // verus!
