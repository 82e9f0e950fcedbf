//! Per-tick player input.

use vstd::prelude::*;

verus! {

/// The logical directions held during one tick.
///
/// The core never buffers or debounces input: each tick reads the
/// instantaneous held state, and nothing is latched between ticks.
#[derive(Clone, Copy, PartialEq, Eq, Structural, Debug)]
pub struct InputSnapshot {
    /// Rotate the craft counter-clockwise.
    pub rotate_left: bool,
    /// Rotate the craft clockwise.
    pub rotate_right: bool,
    /// Fire the main engine along the craft's nose.
    pub boost_up: bool,
}

} // verus!
