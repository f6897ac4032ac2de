use vstd::prelude::*;

use crate::player::PlayerV;
use crate::round::cyclic_turns;
use crate::turn::{TurnV, fresh_turn};

verus! {

/// The queue and current turn after one full cycle: the finished current
/// turn's pairing is recreated fresh at the back of the queue, and the front
/// of the queue becomes current. This is exactly what `Round::prepare_turn`
/// ensures when the current turn has ended.
pub open spec fn next_cycle(queue: Seq<TurnV>, cur: TurnV) -> (Seq<TurnV>, TurnV) {
    let q2 = queue.push(fresh_turn(cur.performer, cur.guesser));
    (q2.drop_first(), q2[0])
}

/// The round's queue and current turn after the `k`-th turn (`k >= 1`) has
/// been brought up, starting from a fresh round's queue `q0` with no current
/// turn, when every turn is taken to completion before the next one.
pub open spec fn nth_state(q0: Seq<TurnV>, k: nat) -> (Seq<TurnV>, TurnV)
    recommends
        1 <= k,
        q0.len() > 0,
    decreases k,
{
    if k <= 1 {
        (q0.drop_first(), q0[0])
    } else {
        let (queue, cur) = nth_state(q0, (k - 1) as nat);
        next_cycle(queue, cur)
    }
}

/// The fresh turns that the first `m` pairings of `q0` are recycled into.
pub open spec fn recycled_prefix(q0: Seq<TurnV>, m: int) -> Seq<TurnV> {
    Seq::new(m as nat, |i: int| fresh_turn(q0[i].performer, q0[i].guesser))
}

/// Across one whole round, turns are played in queue order: for `k` up to
/// the queue's length, the `k`-th turn brought up is exactly `q0[k - 1]`,
/// while the pairings already played wait, recycled, behind the turns that
/// have not played yet.
pub proof fn lemma_turns_play_in_queue_order(q0: Seq<TurnV>, k: nat)
    requires
        1 <= k <= q0.len(),
    ensures
        nth_state(q0, k).0 == q0.skip(k as int) + recycled_prefix(q0, k - 1),
        nth_state(q0, k).1 == q0[k - 1],
    decreases k,
{
    if k <= 1 {
        assert(q0.drop_first() =~= q0.skip(1) + recycled_prefix(q0, 0));
    } else {
        lemma_turns_play_in_queue_order(q0, (k - 1) as nat);
        let queue = nth_state(q0, (k - 1) as nat).0;
        let cur = nth_state(q0, (k - 1) as nat).1;
        let q2 = queue.push(fresh_turn(cur.performer, cur.guesser));
        assert(q2 =~= q0.skip(k - 1) + recycled_prefix(q0, k - 1));
        assert(q2[0] == q0[k - 1]);
        assert(q2.drop_first() =~= q0.skip(k as int) + recycled_prefix(q0, k - 1));
    }
}

/// In a fresh round's queue the performers are the shuffled players, in
/// order: each player performs exactly once per pass of the queue.
pub proof fn lemma_fresh_round_performers(ps: Seq<PlayerV>)
    ensures
        cyclic_turns(ps).len() == ps.len(),
        forall|i: int| 0 <= i < ps.len() ==> (#[trigger] cyclic_turns(ps)[i]).performer == ps[i],
        forall|i: int|
            0 <= i < ps.len() ==> (#[trigger] cyclic_turns(ps)[i]).guesser == ps[
                if i + 1 == ps.len() {
                    0int
                } else {
                    i + 1
                }
            ],
{
}

/// A round generated from distinct players has pairwise distinct performers
/// in its queue, however the players were shuffled: shuffling permutes, and
/// a permutation of a duplicate-free list is duplicate-free.
pub proof fn lemma_fresh_round_has_distinct_performers(ps: Seq<PlayerV>, players: Seq<PlayerV>)
    requires
        ps.to_multiset() == players.to_multiset(),
        players.no_duplicates(),
    ensures
        forall|a: int, b: int|
            0 <= a < b < cyclic_turns(ps).len() ==> (#[trigger] cyclic_turns(ps)[a]).performer != (
            #[trigger] cyclic_turns(ps)[b]).performer,
{
    players.lemma_multiset_has_no_duplicates();
    ps.lemma_multiset_has_no_duplicates_conv();
    lemma_fresh_round_performers(ps);
}

/// Round-robin fairness: starting from a fresh round's queue whose turns
/// have pairwise distinct performers (as `Round::new` produces for distinct
/// players), and taking every turn to completion, no pairing comes up a
/// second time before every queued pairing has come up once — any two of
/// the first `q0.len()` turns played have different performers.
pub proof fn lemma_round_robin(q0: Seq<TurnV>, i: nat, j: nat)
    requires
        1 <= i < j <= q0.len(),
        forall|a: int, b: int|
            0 <= a < b < q0.len() ==> (#[trigger] q0[a]).performer != (#[trigger] q0[b]).performer,
    ensures
        nth_state(q0, i).1.performer != nth_state(q0, j).1.performer,
        nth_state(q0, i).1.pairing() != nth_state(q0, j).1.pairing(),
{
    lemma_turns_play_in_queue_order(q0, i);
    lemma_turns_play_in_queue_order(q0, j);
    assert(q0[i - 1].performer != q0[j - 1].performer);
}

} // verus!
