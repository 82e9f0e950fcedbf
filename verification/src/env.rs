//! Immutable configuration and the core's error kinds.

use vstd::prelude::*;

verus! {

/// Why the core refuses to run. Both kinds are unrecoverable where they are
/// detected: the host must stop with a diagnostic rather than simulate
/// physically meaningless state.
#[derive(Clone, Copy, PartialEq, Eq, Structural, Debug)]
pub enum SimError {
    /// The one expected craft is absent when a tick begins.
    MissingSingleton,
    /// An environment constant is out of range at startup.
    InvalidConfiguration,
}

/// Immutable configuration selected once at startup, in Q32.32 raw units.
#[derive(Clone, Copy, PartialEq, Eq, Structural, Debug)]
pub struct EnvironmentConstants {
    /// Gravitational acceleration magnitude, units/s^2, along world-down.
    pub gravity: i64,
    /// Reaction-control angular rate, radians/s.
    pub rcs_rate: i64,
    /// Main-engine boost magnitude, units/s^2, along the craft's nose.
    pub boost_magnitude: i64,
    /// Offset added to the vertical position to derive the readable altitude.
    pub baseline_altitude: i64,
}

impl EnvironmentConstants {
    /// A configuration is valid when no magnitude or rate is negative.
    pub open spec fn valid(self) -> bool {
        self.gravity >= 0 && self.rcs_rate >= 0 && self.boost_magnitude >= 0
    }

    /// Validated constructor: `Ok` holding exactly the given constants when
    /// every magnitude and rate is non-negative, `InvalidConfiguration`
    /// otherwise.
    pub fn new(gravity: i64, rcs_rate: i64, boost_magnitude: i64, baseline_altitude: i64) -> (r:
        Result<Self, SimError>)
        ensures
            r is Ok <==> (gravity >= 0 && rcs_rate >= 0 && boost_magnitude >= 0),
            r is Ok ==> r.unwrap() == (EnvironmentConstants {
                gravity,
                rcs_rate,
                boost_magnitude,
                baseline_altitude,
            }) && r.unwrap().valid(),
            r is Err ==> r == Result::<Self, SimError>::Err(SimError::InvalidConfiguration),
    {
        if gravity >= 0 && rcs_rate >= 0 && boost_magnitude >= 0 {
            Ok(EnvironmentConstants { gravity, rcs_rate, boost_magnitude, baseline_altitude })
        } else {
            Err(SimError::InvalidConfiguration)
        }
    }
}

/// Lunar surface gravity, 1.625 units/s^2 (exact in Q32.32).
pub const MOON_GRAVITY: i64 = 6979321856;

/// Europa surface gravity, about 1.314 units/s^2.
pub const EUROPA_GRAVITY: i64 = 5643587026;

/// Io surface gravity, about 1.796 units/s^2.
pub const IO_GRAVITY: i64 = 7713761263;

/// Callisto surface gravity, about 1.235 units/s^2.
pub const CALLISTO_GRAVITY: i64 = 5304284610;

/// Ganymede surface gravity, about 1.428 units/s^2.
pub const GANYMEDE_GRAVITY: i64 = 6133213298;

/// Reaction-control angular rate, about 0.5236 rad/s (30 degrees per second).
pub const DEFAULT_RCS_RATE: i64 = 2248839617;

/// Main-engine boost, 100 units/s^2 (exact in Q32.32).
pub const DEFAULT_BOOST_MAGNITUDE: i64 = 429496729600;

/// Altitude shown when the craft sits at vertical position zero, 2000 units
/// (exact in Q32.32).
pub const DEFAULT_BASELINE_ALTITUDE: i64 = 8589934592000;

} // verus!
