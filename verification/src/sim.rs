//! The one-craft world a host loop drives, and the altitude readout binding.

use vstd::prelude::*;
use crate::craft::CraftState;
use crate::dynamics::tick_fits;
use crate::dynamics::tick_step;
use crate::dynamics::try_tick;
use crate::env::EnvironmentConstants;
use crate::env::SimError;
use crate::input::InputSnapshot;

verus! {

/// The presentation collaborator's altitude display: it holds the last value
/// pushed to it and has no feedback into the simulation.
#[derive(Clone, Copy, PartialEq, Eq, Structural, Debug)]
pub struct DisplaySink {
    /// The altitude last published, in raw Q32.32 units.
    pub shown_altitude: i64,
}

/// One-way push of the derived altitude to the display, once per tick after
/// integration.
pub fn publish_altitude(sink: &mut DisplaySink, altitude: i64)
    ensures
        final(sink).shown_altitude == altitude,
{
    sink.shown_altitude = altitude;
}

/// The simulated world: immutable configuration, the expected singleton
/// craft, and the altitude display.
#[derive(Clone, Copy, PartialEq, Eq, Structural, Debug)]
pub struct Simulation {
    /// Read-only configuration with process lifetime.
    pub env: EnvironmentConstants,
    /// The one simulated body. The core assumes exactly one craft exists for
    /// its lifetime; `None` is a contract violation surfaced as
    /// `MissingSingleton`.
    pub craft: Option<CraftState>,
    /// The altitude display the readout stage pushes to.
    pub sink: DisplaySink,
}

impl Simulation {
    /// A world holding the given craft, with the display showing its starting
    /// altitude.
    pub fn new(env: EnvironmentConstants, craft: CraftState) -> (s: Self)
        ensures
            s.env == env,
            s.craft == Some(craft),
            s.sink.shown_altitude == craft.altitude,
    {
        Simulation { env, craft: Some(craft), sink: DisplaySink { shown_altitude: craft.altitude } }
    }

    /// The per-tick entry point. It fails fast with `MissingSingleton` when
    /// the craft is absent; otherwise it runs attitude control and
    /// integration and publishes the fresh altitude, answering `Ok(true)`,
    /// except that a tick whose intermediates would overflow the raw scalars
    /// leaves everything untouched and answers `Ok(false)`.
    pub fn tick(&mut self, input: &InputSnapshot, dt: i64) -> (r: Result<bool, SimError>)
        ensures
            final(self).env == old(self).env,
            old(self).craft is None ==> r == Result::<bool, SimError>::Err(
                SimError::MissingSingleton,
            ) && *final(self) == *old(self),
            old(self).craft is Some && tick_fits(
                old(self).craft.unwrap()@,
                *input,
                dt as int,
                old(self).env,
            ) ==> {
                &&& r == Result::<bool, SimError>::Ok(true)
                &&& final(self).craft is Some
                &&& final(self).craft.unwrap()@ == tick_step(
                    old(self).craft.unwrap()@,
                    *input,
                    dt as int,
                    old(self).env,
                )
                &&& final(self).sink.shown_altitude as int == tick_step(
                    old(self).craft.unwrap()@,
                    *input,
                    dt as int,
                    old(self).env,
                ).altitude
            },
            old(self).craft is Some && !tick_fits(
                old(self).craft.unwrap()@,
                *input,
                dt as int,
                old(self).env,
            ) ==> r == Result::<bool, SimError>::Ok(false) && *final(self) == *old(self),
    {
        match self.craft {
            None => Err(SimError::MissingSingleton),
            Some(c) => {
                let mut stepped_craft = c;
                let stepped = try_tick(&mut stepped_craft, input, dt, &self.env);
                if stepped {
                    self.craft = Some(stepped_craft);
                    publish_altitude(&mut self.sink, stepped_craft.altitude);
                    Ok(true)
                } else {
                    Ok(false)
                }
            },
        }
    }
}

} // verus!
