use vstd::prelude::*;

use vstd::pervasive::VecAdditionalExecFns;

use crate::clue::{Clue, ClueV};
use crate::shuffle::shuffle_vec;

verus! {

/// The mathematical value of a `Bowl`: the three pools a clue can sit in.
pub ghost struct BowlV {
    pub unsolved: Seq<ClueV>,
    pub solved: Seq<ClueV>,
    pub showing: Option<ClueV>,
}

impl BowlV {
    /// The showing clue as a sequence of zero or one clues.
    pub open spec fn showing_seq(self) -> Seq<ClueV> {
        match self.showing {
            Some(c) => seq![c],
            None => Seq::empty(),
        }
    }

    /// Every clue the bowl holds, over all three pools. Game operations
    /// never invent or drop a clue: they preserve this multiset.
    pub open spec fn clues(self) -> vstd::multiset::Multiset<ClueV> {
        self.unsolved.to_multiset().add(self.solved.to_multiset()).add(
            self.showing_seq().to_multiset(),
        )
    }
}

/// The pool of clues: unsolved ones still to be drawn, solved ones kept
/// until the next round's refill, and at most one clue currently showing.
#[derive(Debug)]
pub struct Bowl {
    unsolved: Vec<Clue>,
    solved: Vec<Clue>,
    showing: Option<Clue>,
}

impl View for Bowl {
    type V = BowlV;

    closed spec fn view(&self) -> BowlV {
        BowlV {
            unsolved: self.unsolved.deep_view(),
            solved: self.solved.deep_view(),
            showing: self.showing.deep_view(),
        }
    }
}

impl Bowl {
    /// An empty bowl.
    pub fn new() -> (r: Bowl)
        ensures
            r@ == (BowlV { unsolved: Seq::empty(), solved: Seq::empty(), showing: None }),
    {
        let r = Bowl { unsolved: Vec::new(), solved: Vec::new(), showing: None };
        proof {
            assert(r@.unsolved =~= Seq::<ClueV>::empty());
            assert(r@.solved =~= Seq::<ClueV>::empty());
        }
        r
    }

    /// The clue currently showing, if any.
    pub fn showing(&self) -> (r: Option<Clue>)
        ensures
            r.deep_view() == self@.showing,
    {
        match &self.showing {
            Some(c) => Some(c.clone()),
            None => None,
        }
    }

    /// Appends a clue to the unsolved pool.
    pub fn add_clue(&mut self, c: &Clue)
        ensures
            final(self)@ == (BowlV { unsolved: old(self)@.unsolved.push(c@), ..old(self)@ }),
    {
        let ghost before = self@.unsolved;
        let ghost cv = c@;
        self.unsolved.push(c.clone());
        proof {
            assert(self@.unsolved =~= before.push(cv));
        }
    }

    /// Permutes the unsolved pool at random.
    pub fn shuffle(&mut self)
        ensures
            final(self)@.unsolved.to_multiset() == old(self)@.unsolved.to_multiset(),
            final(self)@.unsolved.len() == old(self)@.unsolved.len(),
            final(self)@.solved == old(self)@.solved,
            final(self)@.showing == old(self)@.showing,
    {
        shuffle_vec(&mut self.unsolved);
    }

    /// Removes the next clue from the unsolved pool and shows it; with an
    /// empty pool there is nothing to show.
    pub fn draw_clue(&mut self) -> (r: Option<Clue>)
        ensures
            final(self)@.solved == old(self)@.solved,
            old(self)@.showing is None ==> final(self)@.clues() == old(self)@.clues(),
            old(self)@.unsolved.len() == 0 ==> r is None && final(self)@ == (BowlV {
                showing: None,
                ..old(self)@
            }),
            old(self)@.unsolved.len() > 0 ==> {
                let drawn = old(self)@.unsolved[0];
                r.deep_view() == Some::<ClueV>(drawn) && final(self)@ == (BowlV {
                    unsolved: old(self)@.unsolved.drop_first(),
                    showing: Some(drawn),
                    ..old(self)@
                })
            },
    {
        if self.unsolved.len() == 0 {
            self.showing = None;
            None
        } else {
            let ghost before = self@.unsolved;
            let c = self.unsolved.remove(0);
            let r = Some(c.clone());
            let ghost cv = c@;
            self.showing = Some(c);
            proof {
                broadcast use vstd::seq_lib::lemma_multiset_commutative;
                broadcast use vstd::seq_lib::group_to_multiset_ensures;

                assert(self@.unsolved =~= before.drop_first());
                assert(before =~= seq![cv] + before.drop_first());
                assert(before.to_multiset() == (seq![cv] + before.drop_first()).to_multiset());
                assert(self@.showing_seq() =~= seq![cv]);
                if old(self)@.showing is None {
                    assert(old(self)@.showing_seq() =~= Seq::<ClueV>::empty());
                    assert(forall|a: ClueV|
                        !(#[trigger] Seq::<ClueV>::empty().to_multiset().contains(a)));
                    assert(self@.clues() =~= old(self)@.clues());
                }
            }
            r
        }
    }

    /// Returns a still-showing clue to the unsolved pool (reshuffling it);
    /// a no-op when nothing is showing.
    pub fn put_back(&mut self)
        ensures
            final(self)@.showing is None,
            final(self)@.solved == old(self)@.solved,
            final(self)@.unsolved.to_multiset() == old(self)@.unsolved.to_multiset().add(
                old(self)@.showing_seq().to_multiset(),
            ),
            final(self)@.clues() == old(self)@.clues(),
    {
        broadcast use vstd::seq_lib::group_to_multiset_ensures;

        let ghost before = self@;
        let shown = match &self.showing {
            Some(c) => Some(c.clone()),
            None => None,
        };
        match shown {
            Some(c) => {
                let ghost cv = c@;
                self.showing = None;
                self.unsolved.push(c);
                proof {
                    assert(self@.unsolved =~= before.unsolved.push(cv));
                    assert(seq![cv].to_multiset() =~= vstd::multiset::Multiset::empty().insert(
                        cv,
                    ));
                    assert(self@.unsolved.to_multiset() =~= before.unsolved.to_multiset().add(
                        before.showing_seq().to_multiset(),
                    ));
                }
                self.shuffle();
                proof {
                    assert(self@.clues() =~= before.clues());
                }
            },
            None => {
                proof {
                    assert(before.showing_seq() =~= Seq::<ClueV>::empty());
                    assert(self@.unsolved.to_multiset() =~= before.unsolved.to_multiset().add(
                        before.showing_seq().to_multiset(),
                    ));
                    assert(self@.clues() =~= before.clues());
                }
            },
        }
    }

    /// Moves the showing clue to the solved pool; a no-op when nothing is
    /// showing.
    pub fn solve_showing_clue(&mut self)
        ensures
            final(self)@.showing is None,
            final(self)@.unsolved == old(self)@.unsolved,
            final(self)@.solved == old(self)@.solved + old(self)@.showing_seq(),
            final(self)@.clues() == old(self)@.clues(),
    {
        let ghost before = self@;
        let shown = match &self.showing {
            Some(c) => Some(c.clone()),
            None => None,
        };
        match shown {
            Some(c) => {
                let ghost cv = c@;
                self.showing = None;
                self.solved.push(c);
                proof {
                    assert(self@.solved =~= before.solved + seq![cv]);
                    lemma_clues_solve(before, self@, cv);
                }
            },
            None => {
                proof {
                    assert(self@.solved =~= before.solved + Seq::<ClueV>::empty());
                    assert(self@.clues() =~= before.clues());
                }
            },
        }
    }

    /// One line per contributor, in order of first appearance over the
    /// unsolved then the solved pool, each giving how many clues of theirs
    /// the bowl holds.
    pub fn status(&self) -> (r: String)
        ensures
            r@ == bowl_status_text(self@),
    {
        let mut all: Vec<Clue> = copy_clues(&self.unsolved);
        let mut solved_copy = copy_clues(&self.solved);
        all.append(&mut solved_copy);
        proof {
            assert(all.deep_view() =~= self@.unsolved + self@.solved);
        }
        let pairs = tally_pairs(&all);
        let lines = tally_to_lines(&pairs);
        crate::text::join_strings(&lines, "\n\t\t")
    }

    /// How many clues remain to be drawn.
    pub fn num_unsolved(&self) -> (r: usize)
        ensures
            r == self@.unsolved.len(),
    {
        self.unsolved.len()
    }

    /// Between rounds every solved clue returns to the unsolved pool, so all
    /// clues are playable again. With nothing solved the unsolved pool is
    /// left exactly as it was.
    pub fn refill(self) -> (r: Bowl)
        ensures
            r@.unsolved == self@.unsolved + self@.solved,
            r@.solved == Seq::<ClueV>::empty(),
            r@.showing is None,
            self@.solved.len() == 0 ==> r@.unsolved == self@.unsolved,
    {
        let ghost before = self@;
        let mut unsolved = self.unsolved;
        let mut solved = self.solved;
        unsolved.append(&mut solved);
        let r = Bowl { unsolved, solved: Vec::new(), showing: None };
        proof {
            assert(r@.unsolved =~= before.unsolved + before.solved);
            assert(r@.solved =~= Seq::<ClueV>::empty());
            if before.solved.len() == 0 {
                assert(r@.unsolved =~= before.unsolved);
            }
        }
        r
    }
}

/// The exec tally pairs, with their counts widened to mathematical integers.
pub open spec fn pairs_model(s: Seq<(Seq<char>, usize)>) -> Seq<(Seq<char>, int)> {
    s.map_values(|p: (Seq<char>, usize)| (p.0, p.1 as int))
}

/// One more clue by `name` folded into a per-contributor tally: the first
/// line carrying `name` is counted up, or a fresh line is appended.
pub open spec fn bump(t: Seq<(Seq<char>, int)>, name: Seq<char>) -> Seq<(Seq<char>, int)>
    decreases t.len(),
{
    if t.len() == 0 {
        seq![(name, 1int)]
    } else if t[0].0 == name {
        seq![(name, t[0].1 + 1)] + t.skip(1)
    } else {
        seq![t[0]] + bump(t.skip(1), name)
    }
}

/// The per-contributor tally of a pool of clues, contributors in order of
/// first appearance.
pub open spec fn tally(s: Seq<ClueV>) -> Seq<(Seq<char>, int)>
    decreases s.len(),
{
    if s.len() == 0 {
        Seq::empty()
    } else {
        bump(tally(s.drop_last()), s.last().entered_by.name)
    }
}

/// A contributor's line in the bowl's status report.
pub open spec fn tally_line(p: (Seq<char>, int)) -> Seq<char> {
    p.0 + ": "@ + crate::text::decimal(p.1)
}

/// The bowl's whole status report: one tally line per contributor, over the
/// unsolved and solved pools together.
pub open spec fn bowl_status_text(b: BowlV) -> Seq<char> {
    crate::text::joined(
        tally(b.unsolved + b.solved).map_values(|p: (Seq<char>, int)| tally_line(p)),
        "\n\t\t"@,
    )
}

/// Bumping a tally whose first line for `name` sits at position `k` counts
/// that line up and changes nothing else.
proof fn lemma_bump_found(t: Seq<(Seq<char>, int)>, name: Seq<char>, k: int)
    requires
        0 <= k < t.len(),
        t[k].0 == name,
        forall|l: int| 0 <= l < k ==> t[l].0 != name,
    ensures
        bump(t, name) == t.update(k, (name, t[k].1 + 1)),
    decreases k,
{
    if k == 0 {
        assert(seq![(name, t[0].1 + 1)] + t.skip(1) =~= t.update(0, (name, t[0].1 + 1)));
    } else {
        assert(forall|i: int| 0 <= i < t.skip(1).len() ==> t.skip(1)[i] == t[i + 1]);
        lemma_bump_found(t.skip(1), name, k - 1);
        assert(seq![t[0]] + t.skip(1).update(k - 1, (name, t[k].1 + 1)) =~= t.update(
            k,
            (name, t[k].1 + 1),
        ));
    }
}

/// Bumping a tally with no line for `name` appends a fresh line.
proof fn lemma_bump_absent(t: Seq<(Seq<char>, int)>, name: Seq<char>)
    requires
        forall|l: int| 0 <= l < t.len() ==> t[l].0 != name,
    ensures
        bump(t, name) == t.push((name, 1int)),
    decreases t.len(),
{
    if t.len() == 0 {
        assert(seq![(name, 1int)] =~= Seq::<(Seq<char>, int)>::empty().push((name, 1int)));
        assert(t.push((name, 1int)) =~= Seq::<(Seq<char>, int)>::empty().push((name, 1int)));
    } else {
        assert(forall|i: int| 0 <= i < t.skip(1).len() ==> t.skip(1)[i] == t[i + 1]);
        lemma_bump_absent(t.skip(1), name);
        assert(seq![t[0]] + t.skip(1).push((name, 1int)) =~= t.push((name, 1int)));
    }
}

fn copy_clues(clues: &Vec<Clue>) -> (r: Vec<Clue>)
    ensures
        r.deep_view() == clues.deep_view(),
{
    let mut r: Vec<Clue> = Vec::new();
    let mut i: usize = 0;
    while i < clues.len()
        invariant
            i <= clues.len(),
            r@.len() == i,
            forall|j: int| 0 <= j < i ==> (#[trigger] r@[j])@ == clues@[j]@,
        decreases clues.len() - i,
    {
        let c = clues[i].clone();
        r.push(c);
        i += 1;
    }
    proof {
        assert(r.deep_view() =~= clues.deep_view());
    }
    r
}

/// The position of the first tally line carrying `name`, if there is one.
fn find_line(pairs: &Vec<(String, usize)>, name: &String) -> (r: Option<usize>)
    ensures
        match r {
            Some(k) => k < pairs@.len() && pairs@[k as int].0@ == name@ && (forall|l: int|
                0 <= l < k ==> (#[trigger] pairs@[l]).0@ != name@),
            None => forall|l: int| 0 <= l < pairs@.len() ==> (#[trigger] pairs@[l]).0@ != name@,
        },
{
    let mut j: usize = 0;
    while j < pairs.len()
        invariant
            j <= pairs@.len(),
            forall|l: int| 0 <= l < j ==> (#[trigger] pairs@[l]).0@ != name@,
        decreases pairs@.len() - j,
    {
        if pairs[j].0 == *name {
            return Some(j);
        }
        j += 1;
    }
    None
}

/// Tallies the clues by contributor name, names in order of first
/// appearance.
fn tally_pairs(clues: &Vec<Clue>) -> (pairs: Vec<(String, usize)>)
    ensures
        pairs_model(pairs.deep_view()) == tally(clues.deep_view()),
{
    let ghost all = clues.deep_view();
    let mut pairs: Vec<(String, usize)> = Vec::new();
    let mut i: usize = 0;
    proof {
        assert(pairs_model(pairs.deep_view()) =~= tally(all.take(0)));
    }
    while i < clues.len()
        invariant
            i <= clues.len(),
            all == clues.deep_view(),
            pairs_model(pairs.deep_view()) == tally(all.take(i as int)),
            forall|j: int| 0 <= j < pairs@.len() ==> (#[trigger] pairs@[j]).1 <= i,
        decreases clues.len() - i,
    {
        let ghost name = all[i as int].entered_by.name;
        let ghost t = pairs_model(pairs.deep_view());
        let found = find_line(&pairs, &clues[i].entered_by.name);
        proof {
            assert(forall|l: int|
                0 <= l < pairs@.len() ==> t[l] == ((#[trigger] pairs@[l]).0@, pairs@[l].1 as int));
        }
        match found {
            Some(k) => {
                let cnt = pairs[k].1;
                let kept = pairs[k].0.clone();
                pairs.set(k, (kept, cnt + 1));
                proof {
                    lemma_bump_found(t, name, k as int);
                    assert(pairs_model(pairs.deep_view()) =~= bump(t, name));
                }
            },
            None => {
                pairs.push((clues[i].entered_by.name.clone(), 1));
                proof {
                    lemma_bump_absent(t, name);
                    assert(pairs_model(pairs.deep_view()) =~= bump(t, name));
                }
            },
        }
        i += 1;
        proof {
            assert(all.take(i as int).drop_last() =~= all.take(i - 1));
            assert(all.take(i as int).last() == all[i - 1]);
            assert(tally(all.take(i as int)) == bump(t, name));
        }
    }
    proof {
        assert(all.take(clues@.len() as int) =~= all);
    }
    pairs
}

/// Renders each tally pair as its status line.
fn tally_to_lines(pairs: &Vec<(String, usize)>) -> (lines: Vec<String>)
    ensures
        lines.deep_view() == pairs_model(pairs.deep_view()).map_values(
            |p: (Seq<char>, int)| tally_line(p),
        ),
{
    let ghost t = pairs_model(pairs.deep_view());
    let mut lines: Vec<String> = Vec::new();
    let mut i: usize = 0;
    while i < pairs.len()
        invariant
            i <= pairs@.len(),
            t == pairs_model(pairs.deep_view()),
            lines@.len() == i,
            forall|l: int| 0 <= l < i ==> (#[trigger] lines@[l])@ == tally_line(t[l]),
        decreases pairs@.len() - i,
    {
        let mut line = pairs[i].0.clone();
        line.append(": ");
        let n = crate::text::usize_to_string(pairs[i].1);
        line.append(n.as_str());
        lines.push(line);
        proof {
            assert(t[i as int] == (pairs@[i as int].0@, pairs@[i as int].1 as int));
        }
        i += 1;
    }
    proof {
        assert(lines.deep_view() =~= t.map_values(|p: (Seq<char>, int)| tally_line(p)));
    }
    lines
}

/// A pool of items being scanned for an acceptable one: items passed over so
/// far wait in `rejected`, in the order they were seen.
#[derive(Debug)]
pub struct CluePool<C> {
    pub pool: Vec<C>,
    pub rejected: Vec<C>,
}

/// What `CluePool::draw` leaves behind. Either some prefix of the pool was
/// rejected and the first acceptable item was drawn, or everything was
/// rejected (trivially so for an empty pool) and the most recently rejected
/// item, if there is one at all, was drawn as the fallback.
pub open spec fn draw_post<C, F: Fn(&C) -> bool>(
    orig_pool: Seq<C>,
    orig_rejected: Seq<C>,
    reject_if: F,
    drawn: Option<C>,
    rest_pool: Seq<C>,
    rest_rejected: Seq<C>,
) -> bool {
    ||| (exists|k: int|
        {
            &&& 0 <= k < orig_pool.len()
            &&& (forall|i: int|
                0 <= i < k ==> call_ensures(reject_if, (&orig_pool[i],), true))
            &&& call_ensures(reject_if, (&orig_pool[k],), false)
            &&& drawn == Some(orig_pool[k])
            &&& rest_pool == orig_pool.skip(k + 1)
            &&& rest_rejected == orig_rejected + orig_pool.take(k)
        })
    ||| ((forall|i: int|
        0 <= i < orig_pool.len() ==> call_ensures(reject_if, (&orig_pool[i],), true))
        && rest_pool.len() == 0 && {
        let all = orig_rejected + orig_pool;
        if all.len() == 0 {
            drawn is None && rest_rejected.len() == 0
        } else {
            drawn == Some(all.last()) && rest_rejected == all.drop_last()
        }
    })
}

impl<C: Clone> CluePool<C> {
    /// A pool with nothing passed over yet.
    pub fn new(pool: Vec<C>) -> (r: CluePool<C>)
        ensures
            r.pool@ == pool@,
            r.rejected@ == Seq::<C>::empty(),
    {
        let r = CluePool { pool, rejected: Vec::new() };
        proof {
            assert(r.rejected@ =~= Seq::<C>::empty());
        }
        r
    }

    /// Everything still in the pool, the items passed over coming last.
    pub fn to_vec(self) -> (r: Vec<C>)
        ensures
            r@ == self.pool@ + self.rejected@,
    {
        let CluePool { mut pool, mut rejected } = self;
        pool.append(&mut rejected);
        pool
    }

    /// Scans the pool front to back for an item that `reject_if` does not
    /// reject; when every item is rejected, falls back to the most recently
    /// rejected one, so that only an entirely empty pool yields nothing.
    pub fn draw<F: Fn(&C) -> bool>(self, reject_if: F) -> (r: (Option<C>, CluePool<C>))
        requires
            forall|i: int|
                0 <= i < self.pool@.len() ==> #[trigger] call_requires(
                    reject_if,
                    (&self.pool@[i],),
                ),
        ensures
            draw_post(self.pool@, self.rejected@, reject_if, r.0, r.1.pool@, r.1.rejected@),
            r.0 is None <==> self.pool@.len() == 0 && self.rejected@.len() == 0,
        decreases self.pool@.len(),
    {
        let ghost orig_pool = self.pool@;
        let ghost orig_rejected = self.rejected@;
        let CluePool { mut pool, mut rejected } = self;
        if pool.len() == 0 {
            let drawn = rejected.pop();
            let rest = CluePool { pool, rejected };
            proof {
                assert(orig_rejected + orig_pool =~= orig_rejected);
                if orig_rejected.len() > 0 {
                    assert(rest.rejected@ =~= (orig_rejected + orig_pool).drop_last());
                }
            }
            (drawn, rest)
        } else {
            let head = pool.remove(0);
            proof {
                assert(pool@ =~= orig_pool.skip(1));
                assert(forall|i: int|
                    0 <= i < pool@.len() ==> pool@[i] == orig_pool[i + 1]);
            }
            if reject_if(&head) {
                rejected.push(head);
                proof {
                    assert(rejected@ =~= orig_rejected.push(orig_pool[0]));
                }
                let next = CluePool { pool, rejected };
                let ghost next_pool = next.pool@;
                let ghost next_rejected = next.rejected@;
                let (d, rest) = next.draw(reject_if);
                proof {
                    lemma_draw_post_cons(
                        orig_pool,
                        orig_rejected,
                        reject_if,
                        d,
                        rest.pool@,
                        rest.rejected@,
                    );
                }
                (d, rest)
            } else {
                let rest = CluePool { pool, rejected };
                proof {
                    assert(orig_rejected + orig_pool.take(0) =~= orig_rejected);
                    assert(draw_post(
                        orig_pool,
                        orig_rejected,
                        reject_if,
                        Some(orig_pool[0]),
                        rest.pool@,
                        rest.rejected@,
                    )) by {
                        assert({
                            &&& 0 <= 0 < orig_pool.len()
                            &&& (forall|i: int|
                                0 <= i < 0 ==> call_ensures(reject_if, (&orig_pool[i],), true))
                            &&& call_ensures(reject_if, (&orig_pool[0],), false)
                            &&& rest.pool@ == orig_pool.skip(1)
                            &&& rest.rejected@ == orig_rejected + orig_pool.take(0)
                        });
                    }
                }
                (Some(head), rest)
            }
        }
    }
}

/// Lifts the result of drawing from a pool's tail, after its head was
/// rejected, back to the whole pool.
proof fn lemma_draw_post_cons<C, F: Fn(&C) -> bool>(
    orig_pool: Seq<C>,
    orig_rejected: Seq<C>,
    reject_if: F,
    drawn: Option<C>,
    rest_pool: Seq<C>,
    rest_rejected: Seq<C>,
)
    requires
        orig_pool.len() > 0,
        call_ensures(reject_if, (&orig_pool[0],), true),
        draw_post(
            orig_pool.skip(1),
            orig_rejected.push(orig_pool[0]),
            reject_if,
            drawn,
            rest_pool,
            rest_rejected,
        ),
    ensures
        draw_post(orig_pool, orig_rejected, reject_if, drawn, rest_pool, rest_rejected),
{
    let tail = orig_pool.skip(1);
    let rej2 = orig_rejected.push(orig_pool[0]);
    assert(forall|i: int| 0 <= i < tail.len() ==> tail[i] == orig_pool[i + 1]);
    if exists|k: int|
        {
            &&& 0 <= k < tail.len()
            &&& (forall|i: int| 0 <= i < k ==> call_ensures(reject_if, (&tail[i],), true))
            &&& call_ensures(reject_if, (&tail[k],), false)
            &&& drawn == Some(tail[k])
            &&& rest_pool == tail.skip(k + 1)
            &&& rest_rejected == rej2 + tail.take(k)
        } {
        let k = choose|k: int|
            {
                &&& 0 <= k < tail.len()
                &&& (forall|i: int| 0 <= i < k ==> call_ensures(reject_if, (&tail[i],), true))
                &&& call_ensures(reject_if, (&tail[k],), false)
                &&& drawn == Some(tail[k])
                &&& rest_pool == tail.skip(k + 1)
                &&& rest_rejected == rej2 + tail.take(k)
            };
        assert forall|i: int| 0 <= i < k + 1 implies call_ensures(
            reject_if,
            (&orig_pool[i],),
            true,
        ) by {
            if i > 0 {
                assert(orig_pool[i] == tail[i - 1]);
            }
        }
        assert(orig_pool[k + 1] == tail[k]);
        assert(rest_pool =~= orig_pool.skip(k + 2));
        assert(rej2 + tail.take(k) =~= orig_rejected + orig_pool.take(k + 1));
        assert({
            &&& 0 <= k + 1 < orig_pool.len()
            &&& (forall|i: int|
                0 <= i < k + 1 ==> call_ensures(reject_if, (&orig_pool[i],), true))
            &&& call_ensures(reject_if, (&orig_pool[k + 1],), false)
            &&& drawn == Some(orig_pool[k + 1])
            &&& rest_pool == orig_pool.skip(k + 2)
            &&& rest_rejected == orig_rejected + orig_pool.take(k + 1)
        });
    } else {
        assert forall|i: int| 0 <= i < orig_pool.len() implies call_ensures(
            reject_if,
            (&orig_pool[i],),
            true,
        ) by {
            if i > 0 {
                assert(orig_pool[i] == tail[i - 1]);
            }
        }
        assert(rej2 + tail =~= orig_rejected + orig_pool);
    }
}

proof fn lemma_clues_solve(before: BowlV, after: BowlV, cv: ClueV)
    requires
        before.showing == Some(cv),
        after.showing is None,
        after.unsolved == before.unsolved,
        after.solved == before.solved + seq![cv],
    ensures
        after.clues() == before.clues(),
{
    broadcast use vstd::seq_lib::group_to_multiset_ensures;
    broadcast use vstd::seq_lib::lemma_multiset_commutative;

    assert(after.solved.to_multiset() == before.solved.to_multiset().add(seq![cv].to_multiset()));
    assert(after.showing_seq() =~= Seq::<ClueV>::empty());
    assert(after.clues() =~= before.clues());
}

} // verus!
