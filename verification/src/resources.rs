//! Process-wide resources: the level counter and the repeating spawn
//! timer.

use vstd::prelude::*;

verus! {

/// Spawn period when a play-through begins, in milliseconds.
pub const BASE_SPAWN_PERIOD_MS: u64 = 2_000;

/// Longest spawn period accepted, in milliseconds.
pub const MAX_SPAWN_PERIOD_MS: u64 = 10_000;

/// Longest frame delta the timers accept, in milliseconds.
pub const MAX_DELTA_MS: u64 = 86_400_000;

/// The level counter; starts at one and only ever advances.
#[derive(Clone, Copy, PartialEq, Eq, Structural, Debug)]
pub struct Level {
    pub value: u64,
}

impl Default for Level {
    /// A play-through starts at the first level.
    fn default() -> (r: Self)
        ensures
            r.value == 1,
    {
        Level { value: 1 }
    }
}

/// Repeating interval timer that paces scheduled spawns.
#[derive(Clone, Copy, PartialEq, Eq, Structural, Debug)]
pub struct SpawnTimer {
    pub elapsed_ms: u64,
    pub period_ms: u64,
}

impl SpawnTimer {
    /// The accumulated time stays below a positive, bounded period.
    pub open spec fn wf(self) -> bool {
        &&& 1 <= self.period_ms <= MAX_SPAWN_PERIOD_MS
        &&& self.elapsed_ms < self.period_ms
    }

    /// Advances the timer and reports whether the interval elapsed during
    /// this frame. On expiry the overshoot is kept, so a long period drifts
    /// no further than one frame.
    pub fn tick(&mut self, delta_ms: u64) -> (fired: bool)
        requires
            old(self).wf(),
            delta_ms <= MAX_DELTA_MS,
        ensures
            final(self).wf(),
            final(self).period_ms == old(self).period_ms,
            fired == (old(self).elapsed_ms + delta_ms >= old(self).period_ms),
            final(self).elapsed_ms == if fired {
                (old(self).elapsed_ms + delta_ms) % (old(self).period_ms as int)
            } else {
                old(self).elapsed_ms + delta_ms
            },
    {
        let total = self.elapsed_ms + delta_ms;
        if total >= self.period_ms {
            self.elapsed_ms = total % self.period_ms;
            true
        } else {
            self.elapsed_ms = total;
            false
        }
    }

    /// Replaces the period and starts the interval over.
    pub fn set_period(&mut self, period_ms: u64)
        requires
            1 <= period_ms <= MAX_SPAWN_PERIOD_MS,
        ensures
            final(self).wf(),
            final(self).period_ms == period_ms,
            final(self).elapsed_ms == 0,
    {
        self.period_ms = period_ms;
        self.elapsed_ms = 0;
    }
}

impl Default for SpawnTimer {
    /// A fresh timer with the baseline period.
    fn default() -> (r: Self)
        ensures
            r.wf(),
            r.period_ms == BASE_SPAWN_PERIOD_MS,
            r.elapsed_ms == 0,
    {
        SpawnTimer { elapsed_ms: 0, period_ms: BASE_SPAWN_PERIOD_MS }
    }
}

} // verus!
