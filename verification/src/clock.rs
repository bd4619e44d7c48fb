//! The fixed-interval tick gate that throttles the simulation.

use vstd::prelude::*;

verus! {

/// Length of one simulation tick in milliseconds.
pub const TICK_INTERVAL_MS: u64 = 100;

/// Accumulates elapsed real time and fires once the fixed tick interval
/// has passed. On firing, the accumulator is reset to zero rather than
/// keeping the overshoot — the cadence may drift slightly under uneven
/// frame pacing, which is accepted.
#[derive(Clone, Copy, Debug, PartialEq, Eq, Structural)]
pub struct SimulationClock {
    pub accumulated_ms: u64,
}

impl SimulationClock {
    /// Between firings the accumulator stays strictly below the interval.
    pub open spec fn wf(self) -> bool {
        self.accumulated_ms < TICK_INTERVAL_MS
    }

    /// A clock that has just fired (or just been created): nothing
    /// accumulated yet.
    pub fn new() -> (c: SimulationClock)
        ensures
            c.accumulated_ms == 0,
            c.wf(),
    {
        SimulationClock { accumulated_ms: 0 }
    }

    /// Feed `delta_ms` elapsed milliseconds into the clock. Returns true
    /// exactly when the accumulated time reaches the tick interval, in
    /// which case the accumulator restarts from zero.
    pub fn advance(&mut self, delta_ms: u64) -> (fired: bool)
        requires
            old(self).wf(),
        ensures
            final(self).wf(),
            fired == (old(self).accumulated_ms + delta_ms >= TICK_INTERVAL_MS),
            fired ==> final(self).accumulated_ms == 0,
            !fired ==> final(self).accumulated_ms == old(self).accumulated_ms + delta_ms,
    {
        if delta_ms >= TICK_INTERVAL_MS - self.accumulated_ms {
            self.accumulated_ms = 0;
            true
        } else {
            self.accumulated_ms = self.accumulated_ms + delta_ms;
            false
        }
    }
}

impl Default for SimulationClock {
    fn default() -> (c: SimulationClock)
        ensures
            c.accumulated_ms == 0,
            c.wf(),
    {
        SimulationClock { accumulated_ms: 0 }
    }
}

} // verus!
