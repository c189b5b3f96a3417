use vstd::prelude::*;
use rand::seq::SliceRandom;
use crate::discharge::Attacker;

verus! {

/// Whether attacker `i` may fire at `now`.
pub open spec fn ready_index(attackers: Seq<Attacker>, now: u64, i: int) -> bool {
    0 <= i < attackers.len() && attackers[i].cooldown.ready_at(now as int)
}

/// The indices of every attacker that may fire at `now`, in increasing order.
pub fn ready_attackers(attackers: &Vec<Attacker>, now: u64) -> (r: Vec<usize>)
    ensures
        forall|k: int| 0 <= k < r@.len() ==> ready_index(attackers@, now, #[trigger] r@[k] as int),
        forall|i: int| ready_index(attackers@, now, i) ==> r@.contains(i as usize),
        forall|a: int, b: int| 0 <= a < b < r@.len() ==> r@[a] < r@[b],
{
    let mut r: Vec<usize> = Vec::new();
    let mut i: usize = 0;
    while i < attackers.len()
        invariant
            0 <= i <= attackers@.len(),
            forall|k: int| 0 <= k < r@.len() ==> ready_index(attackers@, now, #[trigger] r@[k] as int),
            forall|k: int| 0 <= k < r@.len() ==> #[trigger] r@[k] < i,
            forall|j: int| 0 <= j < i && ready_index(attackers@, now, j) ==> r@.contains(j as usize),
            forall|a: int, b: int| 0 <= a < b < r@.len() ==> r@[a] < r@[b],
        decreases attackers@.len() - i,
    {
        let ghost prev = r@;
        if attackers[i].cooldown.is_ready(now) {
            r.push(i);
            assert(r@[r@.len() - 1] == i);
        }
        assert forall|j: int| 0 <= j < i + 1 && ready_index(attackers@, now, j) implies r@.contains(
            j as usize,
        ) by {
            if j < i {
                let k = choose|k: int| 0 <= k < prev.len() && prev[k] == j as usize;
                assert(r@[k] == j as usize);
            } else {
                assert(r@[r@.len() - 1] == j as usize);
            }
        }
        i = i + 1;
    }
    r
}

/// Relies on rand's `SliceRandom::shuffle` with the thread-local generator:
/// it only swaps elements, so the result is a permutation of the input.
#[verifier::external_body]
fn shuffle_indices(v: &mut Vec<usize>)
    ensures
        final(v)@.to_multiset() == old(v)@.to_multiset(),
{
    v.shuffle(&mut rand::thread_rng());
}

/// Takes the first of the shuffled candidates, if any.
pub fn first_candidate(shuffled: &Vec<usize>) -> (r: Option<usize>)
    ensures
        shuffled@.len() == 0 ==> r.is_none(),
        shuffled@.len() > 0 ==> r == Some(shuffled@[0]),
{
    if shuffled.len() == 0 {
        None
    } else {
        Some(shuffled[0])
    }
}

/// Picks, uniformly at random, the one attacker permitted to fire at `now`:
/// some attacker is picked exactly when at least one is ready, and the one
/// picked is always ready.
pub fn choose_attacker(attackers: &Vec<Attacker>, now: u64) -> (r: Option<usize>)
    ensures
        r.is_some() <==> exists|i: int| ready_index(attackers@, now, i),
        r matches Some(i) ==> ready_index(attackers@, now, i as int),
{
    let mut candidates = ready_attackers(attackers, now);
    let ghost before = candidates@;
    shuffle_indices(&mut candidates);
    proof {
        broadcast use vstd::seq_lib::group_to_multiset_ensures;
        vstd::seq_lib::to_multiset_len(candidates@);
        vstd::seq_lib::to_multiset_len(before);
        assert(candidates@.len() == before.len());
        if candidates@.len() > 0 {
            assert(candidates@.to_multiset().count(candidates@[0]) > 0);
            assert(before.contains(candidates@[0]));
        }
        if exists|i: int| ready_index(attackers@, now, i) {
            let i = choose|i: int| ready_index(attackers@, now, i);
            assert(before.contains(i as usize));
        }
    }
    first_candidate(&candidates)
}

} // verus!
