use vstd::prelude::*;
use rand::Rng;
use crate::cooldown::Cooldown;
use crate::discharge::{Attacker, DischargeRequest, discharge_spec, discharge_toward};
use crate::fairness::{choose_attacker, ready_index};
use crate::geometry::Point;
use crate::pacing::SpawnPacing;
use crate::spread::Weapon;
use crate::timer::{RepeatingTimer, RestartingTimer};

verus! {

/// Marks an agent whose movement and firing are decided by the directors.
#[derive(Clone, Copy, Debug, PartialEq, Eq, Structural)]
pub struct Ai;

/// Period of the firing director, in microseconds.
pub const FIRE_PERIOD: u64 = 1_000_000;
/// Period of the wandering director, in microseconds.
pub const WANDER_PERIOD: u64 = 2_360_000;
/// Period of the spawn-cadence growth, in microseconds.
pub const GROWTH_PERIOD: u64 = 4_000_000;
/// Spawned agents appear with `-ARENA_HALF_WIDTH <= x < ARENA_HALF_WIDTH`.
pub const ARENA_HALF_WIDTH: i64 = 460_000;
/// Spawned agents appear with `-ARENA_HALF_HEIGHT <= y < ARENA_HALF_HEIGHT`.
pub const ARENA_HALF_HEIGHT: i64 = 260_000;
/// Team of the spawned agents.
pub const AI_TEAM: u8 = 1;

/// A new autonomous agent, to be materialised by the caller.
#[derive(Clone, Copy, Debug, PartialEq, Eq, Structural)]
pub struct AiBlueprint {
    pub position: Point,
    /// Movement speed in sub-units per second.
    pub move_speed: u64,
    pub move_target: Option<Point>,
    pub health_current: u32,
    pub health_max: u32,
    pub weapon: Weapon,
    pub cooldown: Cooldown,
    pub team: u8,
}

/// The agent spawned at `position`: one hit to defeat, one projectile per
/// discharge, omnidirectional spread, a two-second cooldown that starts ready.
pub open spec fn blueprint_spec(position: Point) -> AiBlueprint {
    AiBlueprint {
        position,
        move_speed: 100_000,
        move_target: Some(Point { x: 200_000, y: 200_000 }),
        health_current: 1,
        health_max: 1,
        weapon: Weapon { bullets: 1, max: 360, spread: 360 },
        cooldown: Cooldown { start_time: 0, duration: 2_000_000 },
        team: AI_TEAM,
    }
}

/// Whether `p` lies in the rectangle where agents spawn.
pub open spec fn in_spawn_area(p: Point) -> bool {
    -ARENA_HALF_WIDTH <= p.x < ARENA_HALF_WIDTH && -ARENA_HALF_HEIGHT <= p.y < ARENA_HALF_HEIGHT
}

/// The autonomous agent to spawn at `position`.
pub fn ai_blueprint(position: Point) -> (r: AiBlueprint)
    ensures
        r == blueprint_spec(position),
{
    AiBlueprint {
        position,
        move_speed: 100_000,
        move_target: Some(Point { x: 200_000, y: 200_000 }),
        health_current: 1,
        health_max: 1,
        weapon: Weapon { bullets: 1, max: 360, spread: 360 },
        cooldown: Cooldown { start_time: 0, duration: 2_000_000 },
        team: AI_TEAM,
    }
}

/// Relies on rand's `Rng::gen_range` with the thread-local generator: for a
/// non-empty half-open range it returns a value inside it (it panics on an
/// empty one).
#[verifier::external_body]
fn random_in(low: i64, high: i64) -> (r: i64)
    requires
        low < high,
    ensures
        low <= r < high,
{
    rand::thread_rng().gen_range(low..high)
}

/// Advances the spawn timer by `delta`. When it completes, it restarts with
/// the current spawn interval and one new agent is spawned at a random point
/// of the spawn area.
pub fn spawn_ais(timer: &mut RestartingTimer, delta: u64, pacing: &SpawnPacing) -> (r: Option<
    AiBlueprint,
>)
    requires
        old(timer).wf(),
    ensures
        final(timer).wf(),
        r.is_some() == old(timer).fires_on(delta),
        r.is_some() ==> *final(timer) == (RestartingTimer { period: pacing.interval, elapsed: 0 }),
        r.is_none() ==> *final(timer) == (RestartingTimer {
            period: old(timer).period,
            elapsed: (old(timer).elapsed + delta) as u64,
        }),
        r matches Some(b) ==> b == blueprint_spec(b.position) && in_spawn_area(b.position),
{
    if timer.tick(delta, pacing.interval) {
        let x = random_in(-ARENA_HALF_WIDTH, ARENA_HALF_WIDTH);
        let y = random_in(-ARENA_HALF_HEIGHT, ARENA_HALF_HEIGHT);
        Some(ai_blueprint(Point { x, y }))
    } else {
        None
    }
}

/// Advances the growth timer by `delta`; each time it completes a period the
/// spawn interval is multiplied by the growth factor. Returns whether it grew.
pub fn update_spawn_interval(timer: &mut RepeatingTimer, delta: u64, pacing: &mut SpawnPacing) -> (grew: bool)
    requires
        old(timer).wf(),
        old(pacing).wf(),
    ensures
        final(timer).wf(),
        *final(timer) == old(timer).ticked(delta),
        grew == old(timer).fires_on(delta),
        final(pacing).wf(),
        grew ==> *final(pacing) == old(pacing).grown(),
        !grew ==> *final(pacing) == *old(pacing),
{
    if timer.tick(delta) {
        pacing.grow();
        true
    } else {
        false
    }
}

/// Advances the wandering timer by `delta`. When it completes a period and a
/// reference agent of the opposing team exists, every autonomous agent's
/// movement intent becomes `reference + offsets[i]` (the caller draws each
/// offset on the orbit circle). Otherwise the intents are left as they are.
pub fn ai_move(
    timer: &mut RepeatingTimer,
    delta: u64,
    intents: &mut Vec<Option<Point>>,
    reference: Option<Point>,
    offsets: &Vec<Point>,
)
    requires
        old(timer).wf(),
        offsets@.len() == old(intents)@.len(),
        reference matches Some(p) ==> p.bounded(),
        forall|i: int| 0 <= i < offsets@.len() ==> (#[trigger] offsets@[i]).bounded(),
    ensures
        final(timer).wf(),
        *final(timer) == old(timer).ticked(delta),
        final(intents)@.len() == old(intents)@.len(),
        (old(timer).fires_on(delta) && reference.is_some()) ==> forall|i: int|
            0 <= i < final(intents)@.len() ==> #[trigger] final(intents)@[i] == Some(
                reference.unwrap().add_spec(offsets@[i]),
            ),
        !(old(timer).fires_on(delta) && reference.is_some()) ==> final(intents)@ == old(intents)@,
{
    if !timer.tick(delta) {
        return;
    }
    let center = match reference {
        Some(p) => p,
        None => {
            return;
        },
    };
    let mut i: usize = 0;
    while i < intents.len()
        invariant
            center.bounded(),
            reference == Some(center),
            offsets@.len() == old(intents)@.len(),
            intents@.len() == old(intents)@.len(),
            forall|j: int| 0 <= j < offsets@.len() ==> (#[trigger] offsets@[j]).bounded(),
            0 <= i <= intents@.len(),
            forall|j: int| 0 <= j < i ==> #[trigger] intents@[j] == Some(center.add_spec(offsets@[j])),
        decreases intents@.len() - i,
    {
        let target = center.plus(&offsets[i]);
        intents.set(i, Some(target));
        i = i + 1;
    }
}

/// Advances the firing timer by `delta`. When it completes a period and a
/// reference agent of the opposing team exists, one attacker among those
/// ready at `now` is chosen at random and aimed at `reference + jitter`; no
/// attacker fires when none is ready. The caller submits the request and then
/// settles the attacker's cooldown with the spawner's answer.
pub fn ai_fire(
    timer: &mut RepeatingTimer,
    delta: u64,
    now: u64,
    attackers: &Vec<Attacker>,
    reference: Option<Point>,
    jitter: Point,
) -> (r: Option<DischargeRequest>)
    requires
        old(timer).wf(),
        forall|i: int| 0 <= i < attackers@.len() ==> (#[trigger] attackers@[i]).position.bounded(),
        jitter.bounded(),
        reference matches Some(p) ==> p.bounded() && p.add_spec(jitter).bounded(),
    ensures
        final(timer).wf(),
        *final(timer) == old(timer).ticked(delta),
        r.is_some() <==> (old(timer).fires_on(delta) && reference.is_some() && exists|i: int|
            ready_index(attackers@, now, i)),
        r matches Some(q) ==> exists|i: int|
            ready_index(attackers@, now, i) && q == discharge_spec(
                i as usize,
                attackers@[i],
                reference.unwrap().add_spec(jitter),
                now,
            ),
{
    if !timer.tick(delta) {
        return None;
    }
    let center = match reference {
        Some(p) => p,
        None => {
            return None;
        },
    };
    match choose_attacker(attackers, now) {
        Some(i) => {
            let target = center.plus(&jitter);
            let q = discharge_toward(i, &attackers[i], &target, now);
            assert(ready_index(attackers@, now, i as int));
            Some(q)
        },
        None => None,
    }
}

} // verus!
