use vstd::prelude::*;
use crate::cooldown::Cooldown;
use crate::geometry::Point;
use crate::spread::Weapon;

verus! {

/// What the decision layer reads of an agent that can fire.
#[derive(Clone, Copy, Debug, PartialEq, Eq, Structural)]
pub struct Attacker {
    pub position: Point,
    /// Allegiance; agents with different values oppose each other.
    pub team: u8,
    pub cooldown: Cooldown,
    pub weapon: Weapon,
}

/// One discharge handed to the projectile spawner. `aim` is the vector from
/// `origin` towards the target; the spawner normalises it, and a zero vector
/// stays zero.
#[derive(Clone, Copy, Debug, PartialEq, Eq, Structural)]
pub struct DischargeRequest {
    /// Index of the attacker among the agents the caller passed in.
    pub attacker: usize,
    pub origin: Point,
    pub aim: Point,
    pub team: u8,
    pub cooldown: Cooldown,
    pub now: u64,
    pub bullets: u16,
    pub spread: u32,
}

/// The request for attacker `index` firing at `target` at time `now`.
pub open spec fn discharge_spec(index: usize, a: Attacker, target: Point, now: u64) -> DischargeRequest {
    DischargeRequest {
        attacker: index,
        origin: a.position,
        aim: target.sub_spec(a.position),
        team: a.team,
        cooldown: a.cooldown,
        now,
        bullets: a.weapon.bullets,
        spread: a.weapon.spread,
    }
}

/// Builds the request for attacker `index` firing at `target` at time `now`.
pub fn discharge_toward(index: usize, a: &Attacker, target: &Point, now: u64) -> (r: DischargeRequest)
    requires
        a.position.bounded(),
        target.bounded(),
    ensures
        r == discharge_spec(index, *a, *target, now),
{
    DischargeRequest {
        attacker: index,
        origin: a.position,
        aim: target.minus(&a.position),
        team: a.team,
        cooldown: a.cooldown,
        now,
        bullets: a.weapon.bullets,
        spread: a.weapon.spread,
    }
}

} // verus!
