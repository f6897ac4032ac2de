use vstd::prelude::*;
use vstd::string::StringExecFns;

use crate::player::Player;
use crate::turn::{Turn, TurnStateV};

verus! {

/// Errors raised by turn-level bookkeeping.
#[derive(Clone, Debug)]
pub enum GameError {
    CantDoThat,
    AlreadyStarted,
    BadTurnState(Turn),
    NoTurnsQueued,
    TurnDoesntMatchPlayers { turn: Turn, performer: Player, guesser: Player },
    PlayerNotAllowedToDrawAClue(Player),
}

/// The name of a turn state, as it appears in error messages.
pub open spec fn state_word(s: TurnStateV) -> Seq<char> {
    match s {
        TurnStateV::Ready => "Ready"@,
        TurnStateV::Guessing(_) => "Guessing"@,
        TurnStateV::Ended(_) => "Ended"@,
    }
}

impl GameError {
    /// What `message` returns for each error.
    pub open spec fn message_view(self) -> Seq<char> {
        match self {
            GameError::CantDoThat => "I can't let you do that"@,
            GameError::AlreadyStarted => "The game has already started"@,
            GameError::BadTurnState(t) => "Can't do that right now, because the turn state is "@
                + state_word(t@.state),
            GameError::NoTurnsQueued => "There isn't a turn queued up yet"@,
            GameError::TurnDoesntMatchPlayers { turn, performer, guesser } =>
                "Current turn doesn't match the performer "@ + performer@.name + " and guesser "@
                + guesser@.name,
            GameError::PlayerNotAllowedToDrawAClue(p) => p@.name
                + " is not allowed to draw a clue right now"@,
        }
    }

    /// The user-facing description of the error.
    pub fn message(&self) -> (r: String)
        ensures
            r@ == self.message_view(),
    {
        match self {
            GameError::CantDoThat => String::from_str("I can't let you do that"),
            GameError::AlreadyStarted => String::from_str("The game has already started"),
            GameError::BadTurnState(t) => {
                let mut s = String::from_str("Can't do that right now, because the turn state is ");
                let word = match &t.state {
                    crate::turn::TurnState::Ready => "Ready",
                    crate::turn::TurnState::Guessing(_) => "Guessing",
                    crate::turn::TurnState::Ended(_) => "Ended",
                };
                s.append(word);
                s
            },
            GameError::NoTurnsQueued => String::from_str("There isn't a turn queued up yet"),
            GameError::TurnDoesntMatchPlayers { turn: _, performer, guesser } => {
                let mut s = String::from_str("Current turn doesn't match the performer ");
                s.append(performer.name.as_str());
                s.append(" and guesser ");
                s.append(guesser.name.as_str());
                s
            },
            GameError::PlayerNotAllowedToDrawAClue(p) => {
                let mut s = p.name.clone();
                s.append(" is not allowed to draw a clue right now");
                s
            },
        }
    }
}

} // verus!
