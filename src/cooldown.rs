use vstd::prelude::*;

verus! {

/// When a weapon last fired and how long it must rest before firing again.
#[derive(Clone, Copy, Debug, PartialEq, Eq, Structural)]
pub struct Cooldown {
    /// Simulation time of the last successful discharge (0 if never fired).
    pub start_time: u64,
    /// How long the weapon rests after a discharge.
    pub duration: u64,
}

impl Cooldown {
    /// The weapon may fire at `now` once `duration` has passed since `start_time`.
    pub open spec fn ready_at(self, now: int) -> bool {
        now - self.start_time >= self.duration
    }

    pub fn new(start_time: u64, duration: u64) -> (r: Cooldown)
        ensures
            r.start_time == start_time,
            r.duration == duration,
    {
        Cooldown { start_time, duration }
    }

    /// Whether the weapon may fire at `now`; the boundary is inclusive.
    pub fn is_ready(&self, now: u64) -> (r: bool)
        ensures
            r == self.ready_at(now as int),
    {
        if now < self.start_time {
            false
        } else {
            now - self.start_time >= self.duration
        }
    }

    /// The cooldown that follows a discharge at `now`: same duration, restarted.
    pub fn restarted_at(&self, now: u64) -> (r: Cooldown)
        ensures
            r == (Cooldown { start_time: now, duration: self.duration }),
    {
        Cooldown { start_time: now, duration: self.duration }
    }
}

/// The cooldown after a discharge attempt at `now`.
pub open spec fn settled(cooldown: Cooldown, now: u64, accepted: bool) -> Cooldown {
    if accepted {
        Cooldown { start_time: now, duration: cooldown.duration }
    } else {
        cooldown
    }
}

/// Applies the outcome of a discharge attempt: an accepted discharge restarts
/// the cooldown at `now`, a rejected one leaves it untouched.
pub fn settle_discharge(cooldown: Cooldown, now: u64, accepted: bool) -> (r: Cooldown)
    ensures
        r == settled(cooldown, now, accepted),
{
    if accepted {
        cooldown.restarted_at(now)
    } else {
        cooldown
    }
}

/// A rejected discharge leaves the cooldown as it was, so an attacker that
/// was ready is still ready at the same instant and may retry.
pub proof fn lemma_rejected_discharge_keeps_readiness(cooldown: Cooldown, now: u64)
    ensures
        settled(cooldown, now, false) == cooldown,
        settled(cooldown, now, false).ready_at(now as int) == cooldown.ready_at(now as int),
{
}

} // verus!
