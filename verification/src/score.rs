//! The scorer: a monotonically increasing counter of passed obstacles.

use vstd::prelude::*;

verus! {

/// The run's score. It is incremented by exactly one per pass event and reset
/// to zero only when a fresh run is set up; it has no other mutation path.
#[derive(Clone, Copy, Debug, PartialEq, Eq, Structural)]
pub struct Score {
    /// The number of pass events counted so far in this run.
    pub value: u32,
}

impl Score {
    /// A fresh counter at zero.
    pub fn new() -> (s: Score)
        ensures
            s.value == 0,
    {
        Score { value: 0 }
    }

    /// Consumes one pass event: the counter goes up by exactly one. The
    /// caller also owes the player a score sound for each call.
    pub fn on_pass_event(&mut self)
        requires
            old(self).value < u32::MAX,
        ensures
            final(self).value == old(self).value + 1,
    {
        self.value = self.value + 1;
    }

    /// Resets the counter to zero. Invoked only when a fresh run is set up.
    pub fn reset(&mut self)
        ensures
            final(self).value == 0,
    {
        self.value = 0;
    }

    /// The current count, read by the presentation layer each frame.
    pub fn current(&self) -> (v: u32)
        ensures
            v == self.value,
    {
        self.value
    }
}

} // verus!
