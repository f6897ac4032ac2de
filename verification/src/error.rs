use vstd::prelude::*;
use vstd::string::StringExecFns;

use crate::game_error::GameError;

verus! {

/// Every way an engine operation can fail; each operation returns one of
/// these rather than panicking on expected misuse.
#[derive(Clone, Debug)]
pub enum Error {
    NoGame,
    NoChannel,
    NotAGuildChannel,
    GameError(GameError),
    GameAlreadyStarted,
    GameNotStartedYet,
    GameFinished,
    EmptyTurnQueue,
    CurrentTurnNotYetFinished,
    CurrentTurnNotYetStarted,
    CurrentTurnHasEnded,
    NoTurnsQueued,
    TurnDoesntMatchPlayers,
    PlayerNotAllowedToDrawAClue,
    EmptyBowl,
    BowlNotEmpty,
    NoRound,
}

impl Error {
    /// What `message` returns for each error.
    pub open spec fn message_view(self) -> Seq<char> {
        match self {
            Error::NoGame => "No Game object in context, this bad... real bad..."@,
            Error::NoChannel =>
                "No channel to play the game in, it should have been set when you ran `!start-game`"@,
            Error::NotAGuildChannel =>
                "Channel isn't a guild channel, run `!start-game` in #general or something like that"@,
            Error::GameError(ge) => ge.message_view(),
            Error::GameAlreadyStarted =>
                "I'm afraid I can't let you do that Dave, the game has already started"@,
            Error::GameNotStartedYet =>
                "The game hasn't started yet, to start the game run `!start-game`"@,
            Error::GameFinished =>
                "The game has finished, you can reset it with `!reset` if you want to play again"@,
            Error::EmptyTurnQueue =>
                "The turn queue is empty, something's gone horribly wrong, ask Tom"@,
            Error::CurrentTurnNotYetFinished =>
                "There's still a turn in progress, wait until that turn has finished to do this"@,
            Error::CurrentTurnNotYetStarted =>
                "The current turn hasn't started yet, you can start it with `!start-turn`"@,
            Error::CurrentTurnHasEnded =>
                "The current turn has ended, you can queue up the next turn with `!next-turn`"@,
            Error::NoTurnsQueued =>
                "No turns are queued, you can queue up the next turn with `!next-turn`"@,
            Error::TurnDoesntMatchPlayers => "Turn doesn't match players or round"@,
            Error::PlayerNotAllowedToDrawAClue =>
                "Sorry, you're not allowed to draw a clue because it's not your turn"@,
            Error::EmptyBowl =>
                "Bowl is empty, it's time for the next round. Use `!next-round` to progress to the next round"@,
            Error::BowlNotEmpty =>
                "Can't go to the next round yet because the bowl isn't empty, queue up another turn instead with `!next-turn`"@,
            Error::NoRound =>
                "Game is not currently in any round, it's either finished or hasn't started yet. To start it, run `!start-game` or `!reset` if you want to play again"@,
        }
    }

    /// The user-facing description of the error.
    pub fn message(&self) -> (r: String)
        ensures
            r@ == self.message_view(),
    {
        match self {
            Error::NoGame => String::from_str(
                "No Game object in context, this bad... real bad...",
            ),
            Error::NoChannel => String::from_str(
                "No channel to play the game in, it should have been set when you ran `!start-game`",
            ),
            Error::NotAGuildChannel => String::from_str(
                "Channel isn't a guild channel, run `!start-game` in #general or something like that",
            ),
            Error::GameError(ge) => ge.message(),
            Error::GameAlreadyStarted => String::from_str(
                "I'm afraid I can't let you do that Dave, the game has already started",
            ),
            Error::GameNotStartedYet => String::from_str(
                "The game hasn't started yet, to start the game run `!start-game`",
            ),
            Error::GameFinished => String::from_str(
                "The game has finished, you can reset it with `!reset` if you want to play again",
            ),
            Error::EmptyTurnQueue => String::from_str(
                "The turn queue is empty, something's gone horribly wrong, ask Tom",
            ),
            Error::CurrentTurnNotYetFinished => String::from_str(
                "There's still a turn in progress, wait until that turn has finished to do this",
            ),
            Error::CurrentTurnNotYetStarted => String::from_str(
                "The current turn hasn't started yet, you can start it with `!start-turn`",
            ),
            Error::CurrentTurnHasEnded => String::from_str(
                "The current turn has ended, you can queue up the next turn with `!next-turn`",
            ),
            Error::NoTurnsQueued => String::from_str(
                "No turns are queued, you can queue up the next turn with `!next-turn`",
            ),
            Error::TurnDoesntMatchPlayers => String::from_str(
                "Turn doesn't match players or round",
            ),
            Error::PlayerNotAllowedToDrawAClue => String::from_str(
                "Sorry, you're not allowed to draw a clue because it's not your turn",
            ),
            Error::EmptyBowl => String::from_str(
                "Bowl is empty, it's time for the next round. Use `!next-round` to progress to the next round",
            ),
            Error::BowlNotEmpty => String::from_str(
                "Can't go to the next round yet because the bowl isn't empty, queue up another turn instead with `!next-turn`",
            ),
            Error::NoRound => String::from_str(
                "Game is not currently in any round, it's either finished or hasn't started yet. To start it, run `!start-game` or `!reset` if you want to play again",
            ),
        }
    }
}

} // verus!
