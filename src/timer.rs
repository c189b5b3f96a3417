use vstd::prelude::*;
use vstd::arithmetic::div_mod::lemma_mod_add_multiples_vanish;

verus! {

/// A timer that fires each time accumulated time crosses its period and
/// then keeps counting from the overshoot.
#[derive(Clone, Copy, Debug, PartialEq, Eq, Structural)]
pub struct RepeatingTimer {
    pub period: u64,
    pub elapsed: u64,
}

impl RepeatingTimer {
    pub open spec fn wf(self) -> bool {
        0 < self.period && self.elapsed < self.period
    }

    /// Whether a tick of `delta` crosses the period.
    pub open spec fn fires_on(self, delta: u64) -> bool {
        self.elapsed + delta >= self.period
    }

    /// The elapsed time left after a tick of `delta`.
    pub open spec fn elapsed_after(self, delta: u64) -> int {
        (self.elapsed + delta) % (self.period as int)
    }

    /// The timer after a tick of `delta`.
    pub open spec fn ticked(self, delta: u64) -> RepeatingTimer {
        RepeatingTimer { period: self.period, elapsed: self.elapsed_after(delta) as u64 }
    }

    pub fn new(period: u64) -> (r: RepeatingTimer)
        requires
            0 < period,
        ensures
            r.wf(),
            r.period == period,
            r.elapsed == 0,
    {
        RepeatingTimer { period, elapsed: 0 }
    }

    /// Advances the timer by `delta` and reports whether it completed a period
    /// during this tick.
    pub fn tick(&mut self, delta: u64) -> (fired: bool)
        requires
            old(self).wf(),
        ensures
            final(self).wf(),
            *final(self) == old(self).ticked(delta),
            fired == old(self).fires_on(delta),
    {
        let room = self.period - self.elapsed;
        if delta >= room {
            let excess = delta - room;
            self.elapsed = excess % self.period;
            proof {
                lemma_mod_add_multiples_vanish(excess as int, self.period as int);
            }
            true
        } else {
            self.elapsed = self.elapsed + delta;
            proof {
                vstd::arithmetic::div_mod::lemma_small_mod(self.elapsed as nat, self.period as nat);
            }
            false
        }
    }
}

/// A one-shot timer that, once it completes, starts over from zero with a
/// period chosen at that moment; time beyond the completion is dropped.
#[derive(Clone, Copy, Debug, PartialEq, Eq, Structural)]
pub struct RestartingTimer {
    pub period: u64,
    pub elapsed: u64,
}

impl RestartingTimer {
    pub open spec fn wf(self) -> bool {
        self.elapsed == 0 || self.elapsed < self.period
    }

    pub open spec fn fires_on(self, delta: u64) -> bool {
        self.elapsed + delta >= self.period
    }

    /// A timer with no period yet: it completes on its first tick.
    pub fn new() -> (r: RestartingTimer)
        ensures
            r.wf(),
            r.period == 0,
            r.elapsed == 0,
    {
        RestartingTimer { period: 0, elapsed: 0 }
    }

    /// Advances the timer by `delta`. When it completes, it restarts with
    /// `next_period` and the result is true.
    pub fn tick(&mut self, delta: u64, next_period: u64) -> (fired: bool)
        requires
            old(self).wf(),
        ensures
            final(self).wf(),
            fired == old(self).fires_on(delta),
            fired ==> *final(self) == (RestartingTimer { period: next_period, elapsed: 0 }),
            !fired ==> *final(self) == (RestartingTimer {
                period: old(self).period,
                elapsed: (old(self).elapsed + delta) as u64,
            }),
    {
        if delta >= self.period - self.elapsed {
            self.period = next_period;
            self.elapsed = 0;
            true
        } else {
            self.elapsed = self.elapsed + delta;
            false
        }
    }
}

} // verus!
