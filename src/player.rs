use vstd::prelude::*;
use crate::discharge::{Attacker, DischargeRequest, discharge_spec, discharge_toward};
use crate::geometry::Point;

verus! {

/// Marks the agent driven by the pointer.
#[derive(Clone, Copy, Debug, PartialEq, Eq, Structural)]
pub struct Player;

/// Sets the player agents' movement intents from the pointer. While the
/// pointer is held and resolves to the world point `pointer`, every intent
/// becomes that point; while held without a resolved point nothing changes;
/// once released every intent becomes "hold position".
pub fn handle_mouse_to_move(held: bool, pointer: Option<Point>, intents: &mut Vec<Option<Point>>)
    ensures
        final(intents)@.len() == old(intents)@.len(),
        !held ==> forall|i: int| 0 <= i < final(intents)@.len() ==> #[trigger] final(intents)@[i]
            == None::<Point>,
        held && pointer.is_some() ==> forall|i: int|
            0 <= i < final(intents)@.len() ==> #[trigger] final(intents)@[i] == pointer,
        held && pointer.is_none() ==> final(intents)@ == old(intents)@,
{
    if held && pointer.is_none() {
        return;
    }
    let value = if held {
        pointer
    } else {
        None
    };
    let mut i: usize = 0;
    while i < intents.len()
        invariant
            intents@.len() == old(intents)@.len(),
            0 <= i <= intents@.len(),
            forall|j: int| 0 <= j < i ==> #[trigger] intents@[j] == value,
        decreases intents@.len() - i,
    {
        intents.set(i, value);
        i = i + 1;
    }
}

/// While the pointer is held and resolves to the world point `pointer`, each
/// player agent attempts one discharge towards it at `now`; otherwise none.
/// The caller submits each request and settles that agent's cooldown with the
/// spawner's answer.
pub fn handle_clicks_to_fire(held: bool, pointer: Option<Point>, now: u64, players: &Vec<Attacker>) -> (r:
    Vec<DischargeRequest>)
    requires
        pointer matches Some(p) ==> p.bounded(),
        forall|i: int| 0 <= i < players@.len() ==> (#[trigger] players@[i]).position.bounded(),
    ensures
        !(held && pointer.is_some()) ==> r@.len() == 0,
        held && pointer.is_some() ==> r@.len() == players@.len() && forall|i: int|
            0 <= i < r@.len() ==> #[trigger] r@[i] == discharge_spec(
                i as usize,
                players@[i],
                pointer.unwrap(),
                now,
            ),
{
    let mut r: Vec<DischargeRequest> = Vec::new();
    if !held {
        return r;
    }
    let target = match pointer {
        Some(p) => p,
        None => {
            return r;
        },
    };
    let mut i: usize = 0;
    while i < players.len()
        invariant
            target.bounded(),
            pointer == Some(target),
            forall|j: int| 0 <= j < players@.len() ==> (#[trigger] players@[j]).position.bounded(),
            0 <= i <= players@.len(),
            r@.len() == i,
            forall|j: int|
                0 <= j < i ==> #[trigger] r@[j] == discharge_spec(j as usize, players@[j], target, now),
        decreases players@.len() - i,
    {
        r.push(discharge_toward(i, &players[i], &target, now));
        i = i + 1;
    }
    r
}

} // verus!
