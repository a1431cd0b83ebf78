//! The adaptive delay schedule: a bounded ramp of candidate delays.
//!
//! The schedule holds non-negative millisecond durations `floor`,
//! `ceiling`, `step` and the current candidate delay, with
//! `floor <= current < ceiling` at all times. The current delay grows
//! by `step` each cycle and restarts at `floor` when it would reach the
//! ceiling, so the search space is a bounded ramp that repeats
//! indefinitely; the scheduler resets it to `floor` explicitly when a
//! probe arrived too late (the mount won the race).

use vstd::prelude::*;

verus! {

/// The bounded, repeating ramp of candidate race delays, in
/// milliseconds.
#[derive(Clone, Copy, Debug, PartialEq, Eq, Structural)]
pub struct DelaySchedule {
    /// Smallest candidate delay; where every ramp starts.
    pub floor: u64,
    /// Exclusive upper bound of the ramp; also the settle delay used
    /// when no connection was observed.
    pub ceiling: u64,
    /// Increment applied after each completed cycle.
    pub step: u64,
    /// The candidate delay for the next probe.
    pub current: u64,
}

impl DelaySchedule {
    /// Well-formedness: a positive step and a current delay inside
    /// `[floor, ceiling)`.
    pub open spec fn wf(self) -> bool {
        &&& self.floor < self.ceiling
        &&& self.step >= 1
        &&& self.floor <= self.current < self.ceiling
    }

    /// A schedule starting at its floor.
    pub fn new(floor: u64, ceiling: u64, step: u64) -> (s: DelaySchedule)
        requires
            floor < ceiling,
            step >= 1,
        ensures
            s.wf(),
            s == (DelaySchedule { floor, ceiling, step, current: floor }),
    {
        DelaySchedule { floor, ceiling, step, current: floor }
    }

    /// The delay after one advance: `step` more, restarting at the
    /// floor when the ramp would reach the ceiling.
    pub open spec fn advanced(self) -> DelaySchedule {
        if self.current + self.step >= self.ceiling {
            DelaySchedule { current: self.floor, ..self }
        } else {
            DelaySchedule { current: (self.current + self.step) as u64, ..self }
        }
    }

    /// Advances the ramp by one step, wrapping to the floor at the
    /// ceiling.
    pub fn advance(&mut self)
        requires
            old(self).wf(),
        ensures
            final(self).wf(),
            *final(self) == old(self).advanced(),
    {
        if self.ceiling - self.current <= self.step {
            self.current = self.floor;
        } else {
            self.current = self.current + self.step;
        }
    }

    /// Resets the ramp to its floor (the probe arrived too late, so
    /// smaller delays are searched next).
    pub fn reset(&mut self)
        requires
            old(self).wf(),
        ensures
            final(self).wf(),
            *final(self) == (DelaySchedule { current: old(self).floor, ..*old(self) }),
    {
        self.current = self.floor;
    }
}

/// The ramp stays inside its bounds: from any well-formed schedule,
/// both an advance and a reset yield `floor <= current < ceiling`
/// again, so the current delay is always in `[floor, ceiling)`.
pub proof fn lemma_ramp_bounded(s: DelaySchedule)
    requires
        s.wf(),
    ensures
        s.advanced().wf(),
        s.floor <= s.advanced().current < s.ceiling,
        s.floor <= s.current < s.ceiling,
{
}

} // verus!
