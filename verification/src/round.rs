use vstd::prelude::*;
use vstd::string::StringExecFns;

use crate::error::Error;
use crate::game_error::GameError;
use crate::player::{Player, PlayerV, same_player};
use crate::text::{decimal, u64_to_string};
use crate::turn::{Turn, TurnState, TurnStateV, TurnV, fresh_turn};
use crate::shuffle::shuffle_vec;

verus! {

/// The mathematical value of a `Round`.
pub ghost struct RoundV {
    pub round_number: i64,
    pub turn_queue: Seq<TurnV>,
    pub current_turn: Option<TurnV>,
}

/// The turn queue a fresh round starts with: player `i` of the (already
/// shuffled) list performs for player `i + 1`, wrapping around at the end,
/// so every player performs exactly once.
pub open spec fn cyclic_turns(ps: Seq<PlayerV>) -> Seq<TurnV> {
    Seq::new(
        ps.len(),
        |i: int|
            fresh_turn(
                ps[i],
                ps[if i + 1 == ps.len() {
                    0int
                } else {
                    i + 1
                }],
            ),
    )
}

/// What a just-created round for these players looks like: some shuffle of
/// the player list, paired off cyclically, with no turn current yet.
pub open spec fn is_fresh_round(rv: RoundV, round_number: int, players: Seq<PlayerV>) -> bool {
    &&& rv.round_number == round_number
    &&& rv.current_turn is None
    &&& rv.turn_queue.len() == players.len()
    &&& exists|ps: Seq<PlayerV>|
        ps.to_multiset() == players.to_multiset() && rv.turn_queue == cyclic_turns(ps)
}

/// How a chat mention of a player is written.
pub open spec fn mention(p: PlayerV) -> Seq<char> {
    "<@"@ + decimal(p.id as int) + ">"@
}

/// What `ready_turn_message` announces for a turn that is ready to start.
pub open spec fn ready_message_text(t: TurnV) -> Seq<char> {
    "Get ready "@ + mention(t.performer) + ", you'll be performing for "@ + mention(t.guesser)
        + "!!"@
}

/// Whether an `end_turn` request matches the recorded turn and round: the
/// identity triple exists so that a stale, timer-driven call fails closed.
pub open spec fn triple_matches(
    t: TurnV,
    p: PlayerV,
    g: PlayerV,
    live_round: i64,
    claimed_round: i64,
) -> bool {
    same_player(t.performer, p) && same_player(t.guesser, g) && live_round == claimed_round
}

/// One round of the game: an ordered, round-robin queue of turns, and the
/// turn currently being played, if any.
#[derive(Debug)]
pub struct Round {
    pub round_number: i64,
    pub turn_queue: Vec<Turn>,
    pub current_turn: Option<Turn>,
}

impl View for Round {
    type V = RoundV;

    open spec fn view(&self) -> RoundV {
        RoundV {
            round_number: self.round_number,
            turn_queue: self.turn_queue.deep_view(),
            current_turn: self.current_turn.deep_view(),
        }
    }
}

impl Clone for Round {
    fn clone(&self) -> (r: Self)
        ensures
            r@ == self@,
    {
        let mut turn_queue: Vec<Turn> = Vec::new();
        let mut i: usize = 0;
        while i < self.turn_queue.len()
            invariant
                i <= self.turn_queue.len(),
                turn_queue.len() == i,
                forall|j: int| 0 <= j < i ==> (#[trigger] turn_queue@[j])@ == self.turn_queue@[j]@,
            decreases self.turn_queue.len() - i,
        {
            let t = self.turn_queue[i].clone();
            turn_queue.push(t);
            i += 1;
        }
        let current_turn = match &self.current_turn {
            Some(t) => Some(t.clone()),
            None => None,
        };
        let r = Round { round_number: self.round_number, turn_queue, current_turn };
        proof {
            assert(r@.turn_queue =~= self@.turn_queue);
        }
        r
    }
}

impl Round {
    /// A fresh round: the players are shuffled and paired cyclically, so the
    /// queue holds one `Ready` turn per player, each performing once; no
    /// turn is current yet.
    pub fn new(round_number: i64, players: &Vec<Player>) -> (r: Round)
        ensures
            is_fresh_round(r@, round_number as int, players.deep_view()),
    {
        let mut shuffled: Vec<Player> = Vec::new();
        let mut i: usize = 0;
        while i < players.len()
            invariant
                i <= players.len(),
                shuffled.len() == i,
                forall|j: int| 0 <= j < i ==> (#[trigger] shuffled@[j])@ == players@[j]@,
            decreases players.len() - i,
        {
            let p = players[i].clone();
            shuffled.push(p);
            i += 1;
        }
        proof {
            assert(shuffled.deep_view() =~= players.deep_view());
        }
        shuffle_vec(&mut shuffled);
        let ghost ps = shuffled.deep_view();
        let n = shuffled.len();
        let mut turn_queue: Vec<Turn> = Vec::new();
        i = 0;
        while i < n
            invariant
                i <= n,
                n == shuffled.len(),
                ps == shuffled.deep_view(),
                turn_queue.len() == i,
                forall|j: int| 0 <= j < i ==> (#[trigger] turn_queue@[j])@ == cyclic_turns(ps)[j],
            decreases n - i,
        {
            let p1 = shuffled[i].clone();
            let next = if i + 1 == n {
                0
            } else {
                i + 1
            };
            let p2 = shuffled[next].clone();
            turn_queue.push(Turn::new(p1, p2));
            i += 1;
        }
        let r = Round { round_number, turn_queue, current_turn: None };
        proof {
            assert(r@.turn_queue =~= cyclic_turns(ps));
        }
        r
    }

    /// The same round with the given current turn.
    pub fn with_current_turn(self, current_turn: Option<Turn>) -> (r: Round)
        ensures
            r@ == (RoundV { current_turn: current_turn.deep_view(), ..self@ }),
    {
        Round { round_number: self.round_number, turn_queue: self.turn_queue, current_turn }
    }

    /// Brings the next turn up as current. With no current turn the front of
    /// the queue is dequeued; a finished turn is recreated fresh and sent to
    /// the back of the queue first, so its pairing plays again only after
    /// every other queued pairing has had its turn; an unfinished turn is an
    /// error.
    pub fn prepare_turn(self) -> (r: Result<Round, Error>)
        ensures
            self@.current_turn is None && self@.turn_queue.len() == 0 ==> (r matches Err(e)
                && e is EmptyTurnQueue),
            self@.current_turn is None && self@.turn_queue.len() > 0 ==> (r matches Ok(r2)
                && r2@ == (RoundV {
                turn_queue: self@.turn_queue.drop_first(),
                current_turn: Some(self@.turn_queue[0]),
                ..self@
            })),
            self@.current_turn matches Some(t) ==> {
                &&& t.state is Ended ==> (r matches Ok(r2) && {
                    let q2 = self@.turn_queue.push(fresh_turn(t.performer, t.guesser));
                    r2@ == (RoundV {
                        turn_queue: q2.drop_first(),
                        current_turn: Some(q2[0]),
                        ..self@
                    })
                })
                &&& !(t.state is Ended) ==> (r matches Err(e) && e is CurrentTurnNotYetFinished)
            },
    {
        let Round { round_number, mut turn_queue, current_turn } = self;
        match current_turn {
            None => {
                if turn_queue.len() == 0 {
                    Err(Error::EmptyTurnQueue)
                } else {
                    let ghost q = turn_queue.deep_view();
                    let next = turn_queue.remove(0);
                    let r2 = Round { round_number, turn_queue, current_turn: Some(next) };
                    proof {
                        assert(r2@.turn_queue =~= q.drop_first());
                    }
                    Ok(r2)
                }
            },
            Some(t) => {
                match t {
                    Turn { performer, guesser, state: TurnState::Ended(_) } => {
                        let ghost q = turn_queue.deep_view();
                        let recycled = Turn::new(performer, guesser);
                        let ghost q2 = q.push(recycled@);
                        turn_queue.push(recycled);
                        proof {
                            assert(turn_queue.deep_view() =~= q2);
                        }
                        let next = turn_queue.remove(0);
                        let r2 = Round { round_number, turn_queue, current_turn: Some(next) };
                        proof {
                            assert(r2@.turn_queue =~= q2.drop_first());
                        }
                        Ok(r2)
                    },
                    Turn { state: TurnState::Ready, .. } => Err(Error::CurrentTurnNotYetFinished),
                    Turn { state: TurnState::Guessing(_), .. } => Err(
                        Error::CurrentTurnNotYetFinished,
                    ),
                }
            },
        }
    }

    /// Announces the current turn's pairing, while that turn is still
    /// `Ready`.
    pub fn ready_turn_message(&self) -> (r: Result<String, GameError>)
        ensures
            self@.current_turn is None ==> (r matches Err(e) && e is NoTurnsQueued),
            self@.current_turn matches Some(t) ==> {
                &&& t.state is Ready ==> (r matches Ok(m) && m@ == ready_message_text(t))
                &&& !(t.state is Ready) ==> (r matches Err(e) && e matches GameError::BadTurnState(
                    b,
                ) && b@ == t)
            },
    {
        match &self.current_turn {
            Some(t) => match &t.state {
                TurnState::Ready => {
                    let mut m = String::from_str("Get ready ");
                    m.append("<@");
                    m.append(u64_to_string(t.performer.id).as_str());
                    m.append(">");
                    m.append(", you'll be performing for ");
                    m.append("<@");
                    m.append(u64_to_string(t.guesser.id).as_str());
                    m.append(">");
                    m.append("!!");
                    proof {
                        assert(m@ =~= ready_message_text(t@));
                    }
                    Ok(m)
                },
                TurnState::Guessing(_) => Err(GameError::BadTurnState(t.clone())),
                TurnState::Ended(_) => Err(GameError::BadTurnState(t.clone())),
            },
            None => Err(GameError::NoTurnsQueued),
        }
    }

    /// Starts the current turn: `Ready` becomes `Guessing` with an empty
    /// ledger, and the started turn is returned for the caller to time.
    pub fn start_turn(self) -> (r: Result<(Round, Turn), Error>)
        ensures
            self@.current_turn is None ==> (r matches Err(e) && e is NoTurnsQueued),
            self@.current_turn matches Some(t) ==> {
                &&& t.state is Ready ==> (r matches Ok(p) && {
                    let started = TurnV { state: TurnStateV::Guessing(Seq::empty()), ..t };
                    p.0@ == (RoundV { current_turn: Some(started), ..self@ }) && p.1@ == started
                })
                &&& t.state is Guessing ==> (r matches Err(e) && e is CurrentTurnNotYetFinished)
                &&& t.state is Ended ==> (r matches Err(e) && e is CurrentTurnHasEnded)
            },
    {
        match self.current_turn {
            Some(t) => match &t.state {
                TurnState::Ready => {
                    let started = t.as_guessing();
                    let copy = started.clone();
                    Ok(
                        (
                            Round {
                                round_number: self.round_number,
                                turn_queue: self.turn_queue,
                                current_turn: Some(started),
                            },
                            copy,
                        ),
                    )
                },
                TurnState::Guessing(_) => Err(Error::CurrentTurnNotYetFinished),
                TurnState::Ended(_) => Err(Error::CurrentTurnHasEnded),
            },
            None => Err(Error::NoTurnsQueued),
        }
    }

    /// Ends the current turn, provided the caller's performer/guesser/round
    /// triple matches the live turn exactly and the turn is `Guessing`; the
    /// ledger is carried into `Ended` unchanged.
    pub fn end_turn(self, p: &Player, g: &Player, round_number: i64) -> (r: Result<Round, Error>)
        ensures
            self@.current_turn is None ==> (r matches Err(e) && e is NoTurnsQueued),
            self@.current_turn matches Some(t) ==> {
                &&& !triple_matches(t, p@, g@, self@.round_number, round_number) ==> (r matches
                    Err(e) && e is TurnDoesntMatchPlayers)
                &&& triple_matches(t, p@, g@, self@.round_number, round_number) ==> {
                    &&& t.state is Guessing ==> (r matches Ok(r2) && r2@ == (RoundV {
                        current_turn: Some(TurnV { state: TurnStateV::Ended(t.summary()), ..t }),
                        ..self@
                    }))
                    &&& t.state is Ready ==> (r matches Err(e) && e is CurrentTurnNotYetStarted)
                    &&& t.state is Ended ==> (r matches Err(e) && e is CurrentTurnHasEnded)
                }
            },
    {
        match self.current_turn {
            Some(t) => {
                if (*p == t.performer) && (*g == t.guesser) && (self.round_number
                    == round_number) {
                    match &t.state {
                        TurnState::Guessing(_) => Ok(
                            Round {
                                round_number: self.round_number,
                                turn_queue: self.turn_queue,
                                current_turn: Some(t.as_ended()),
                            },
                        ),
                        TurnState::Ready => Err(Error::CurrentTurnNotYetStarted),
                        TurnState::Ended(_) => Err(Error::CurrentTurnHasEnded),
                    }
                } else {
                    Err(Error::TurnDoesntMatchPlayers)
                }
            },
            None => Err(Error::NoTurnsQueued),
        }
    }
}

} // verus!
