use vstd::prelude::*;
use vstd::string::StringExecFns;

use crate::clue::{Clue, ClueV};
use crate::game_error::GameError;
use crate::player::{Player, PlayerV};

verus! {

/// The mathematical value of a turn's lifecycle state. `Guessing` and
/// `Ended` carry the clues confirmed solved so far, in order.
pub ghost enum TurnStateV {
    Ready,
    Guessing(Seq<ClueV>),
    Ended(Seq<ClueV>),
}

/// The mathematical value of a `Turn`.
pub ghost struct TurnV {
    pub performer: PlayerV,
    pub guesser: PlayerV,
    pub state: TurnStateV,
}

impl TurnV {
    /// The clues recorded for this turn, whatever phase it is in.
    pub open spec fn summary(self) -> Seq<ClueV> {
        match self.state {
            TurnStateV::Ready => Seq::empty(),
            TurnStateV::Guessing(s) => s,
            TurnStateV::Ended(s) => s,
        }
    }

    /// The performer/guesser pairing, without the lifecycle state.
    pub open spec fn pairing(self) -> (PlayerV, PlayerV) {
        (self.performer, self.guesser)
    }
}

/// The append-only ledger of clues confirmed solved within one turn.
#[derive(Debug)]
pub struct TurnSummary {
    clues_solved: Vec<Clue>,
}

impl View for TurnSummary {
    type V = Seq<ClueV>;

    closed spec fn view(&self) -> Seq<ClueV> {
        self.clues_solved.deep_view()
    }
}

impl Clone for TurnSummary {
    fn clone(&self) -> (r: Self)
        ensures
            r@ == self@,
    {
        let mut clues: Vec<Clue> = Vec::new();
        let mut i: usize = 0;
        while i < self.clues_solved.len()
            invariant
                i <= self.clues_solved.len(),
                clues.len() == i,
                forall|j: int|
                    0 <= j < i ==> (#[trigger] clues@[j])@ == self.clues_solved@[j]@,
            decreases self.clues_solved.len() - i,
        {
            let c = self.clues_solved[i].clone();
            clues.push(c);
            i += 1;
        }
        proof {
            assert(clues.deep_view() =~= self.clues_solved.deep_view());
        }
        TurnSummary { clues_solved: clues }
    }
}

impl TurnSummary {
    /// A fresh, empty ledger.
    pub fn new() -> (r: TurnSummary)
        ensures
            r@ == Seq::<ClueV>::empty(),
    {
        let r = TurnSummary { clues_solved: Vec::new() };
        proof {
            assert(r@ =~= Seq::<ClueV>::empty());
        }
        r
    }

    /// The ledger extended by one more solved clue.
    pub fn with_clue(self, clue: Clue) -> (r: TurnSummary)
        ensures
            r@ == self@.push(clue@),
    {
        let ghost before = self@;
        let ghost c = clue@;
        let mut clues = self.clues_solved;
        clues.push(clue);
        proof {
            assert(clues.deep_view() =~= before.push(c));
        }
        TurnSummary { clues_solved: clues }
    }

    /// Read access to the recorded clues, oldest first.
    pub fn clues_solved(&self) -> (r: &Vec<Clue>)
        ensures
            r.deep_view() == self@,
    {
        &self.clues_solved
    }
}

/// A turn's lifecycle state; see `TurnStateV` for its meaning.
#[derive(Debug)]
pub enum TurnState {
    Ready,
    Guessing(TurnSummary),
    Ended(TurnSummary),
}

impl View for TurnState {
    type V = TurnStateV;

    open spec fn view(&self) -> TurnStateV {
        match self {
            TurnState::Ready => TurnStateV::Ready,
            TurnState::Guessing(s) => TurnStateV::Guessing(s@),
            TurnState::Ended(s) => TurnStateV::Ended(s@),
        }
    }
}

impl Clone for TurnState {
    fn clone(&self) -> (r: Self)
        ensures
            r@ == self@,
    {
        match self {
            TurnState::Ready => TurnState::Ready,
            TurnState::Guessing(s) => TurnState::Guessing(s.clone()),
            TurnState::Ended(s) => TurnState::Ended(s.clone()),
        }
    }
}

/// One performer/guesser pairing and where it stands in its lifecycle.
#[derive(Debug)]
pub struct Turn {
    pub performer: Player,
    pub guesser: Player,
    pub state: TurnState,
}

impl View for Turn {
    type V = TurnV;

    open spec fn view(&self) -> TurnV {
        TurnV { performer: self.performer@, guesser: self.guesser@, state: self.state@ }
    }
}

impl DeepView for Turn {
    type V = TurnV;

    open spec fn deep_view(&self) -> TurnV {
        self@
    }
}

impl Clone for Turn {
    fn clone(&self) -> (r: Self)
        ensures
            r@ == self@,
    {
        Turn {
            performer: self.performer.clone(),
            guesser: self.guesser.clone(),
            state: self.state.clone(),
        }
    }
}

/// The mathematical value of a fresh turn for a pairing.
pub open spec fn fresh_turn(performer: PlayerV, guesser: PlayerV) -> TurnV {
    TurnV { performer, guesser, state: TurnStateV::Ready }
}

/// What `Turn::status` says in each phase of a turn.
pub open spec fn turn_status_text(t: TurnV) -> Seq<char> {
    match t.state {
        TurnStateV::Ready => t.performer.name + " is getting ready to perform to "@
            + t.guesser.name + " who will be guessing"@,
        TurnStateV::Guessing(_) => t.performer.name + " is performing for "@ + t.guesser.name
            + " who is guessing"@,
        TurnStateV::Ended(_) => t.performer.name + " has finished performing for "@
            + t.guesser.name + " who was guessing"@,
    }
}

impl Turn {
    /// A new turn starts in `Ready`.
    pub fn new(p1: Player, p2: Player) -> (r: Turn)
        ensures
            r@ == fresh_turn(p1@, p2@),
    {
        Turn { performer: p1, guesser: p2, state: TurnState::Ready }
    }

    /// The same pairing, in the given state.
    pub fn with_state(self, state: TurnState) -> (r: Turn)
        ensures
            r@ == (TurnV { state: state@, ..self@ }),
    {
        Turn { performer: self.performer, guesser: self.guesser, state }
    }

    /// The pairing moves to `Guessing` with an empty ledger.
    pub fn as_guessing(self) -> (r: Turn)
        ensures
            r@ == (TurnV { state: TurnStateV::Guessing(Seq::empty()), ..self@ }),
    {
        Turn {
            performer: self.performer,
            guesser: self.guesser,
            state: TurnState::Guessing(TurnSummary::new()),
        }
    }

    /// The pairing moves to `Ended`, carrying its ledger through unchanged.
    /// From `Ready` (a path the game itself rejects) the ledger is empty.
    pub fn as_ended(self) -> (r: Turn)
        ensures
            r@ == (TurnV { state: TurnStateV::Ended(self@.summary()), ..self@ }),
    {
        match self.state {
            TurnState::Ready => Turn {
                performer: self.performer,
                guesser: self.guesser,
                state: TurnState::Ended(TurnSummary::new()),
            },
            TurnState::Guessing(summ) => Turn {
                performer: self.performer,
                guesser: self.guesser,
                state: TurnState::Ended(summ),
            },
            TurnState::Ended(summ) => Turn {
                performer: self.performer,
                guesser: self.guesser,
                state: TurnState::Ended(summ),
            },
        }
    }

    /// A sentence describing where the turn stands.
    pub fn status(&self) -> (r: String)
        ensures
            r@ == turn_status_text(self@),
    {
        let mut s = self.performer.name.clone();
        match &self.state {
            TurnState::Ready => {
                s.append(" is getting ready to perform to ");
                s.append(self.guesser.name.as_str());
                s.append(" who will be guessing");
            },
            TurnState::Guessing(_) => {
                s.append(" is performing for ");
                s.append(self.guesser.name.as_str());
                s.append(" who is guessing");
            },
            TurnState::Ended(_) => {
                s.append(" has finished performing for ");
                s.append(self.guesser.name.as_str());
                s.append(" who was guessing");
            },
        }
        s
    }

    /// Records one more solved clue; legal only while `Guessing`.
    pub fn with_solved_clue(self, clue: Clue) -> (r: Result<Self, GameError>)
        ensures
            self@.state is Guessing ==> (r matches Ok(t) && t@ == (TurnV {
                state: TurnStateV::Guessing(self@.summary().push(clue@)),
                ..self@
            })),
            !(self@.state is Guessing) ==> (r matches Err(e) && e matches
                GameError::BadTurnState(t) && t@ == self@),
    {
        match self.state {
            TurnState::Ready => Err(GameError::BadTurnState(Turn {
                performer: self.performer,
                guesser: self.guesser,
                state: TurnState::Ready,
            })),
            TurnState::Ended(summ) => Err(GameError::BadTurnState(Turn {
                performer: self.performer,
                guesser: self.guesser,
                state: TurnState::Ended(summ),
            })),
            TurnState::Guessing(v) => Ok(Turn {
                performer: self.performer,
                guesser: self.guesser,
                state: TurnState::Guessing(v.with_clue(clue)),
            }),
        }
    }
}

} // verus!
