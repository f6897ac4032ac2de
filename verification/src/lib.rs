//! The rules engine of a turn-based party word-guessing game played through
//! chat: players submit secret clues into a bowl, then pairs take timed
//! turns — one performs, one guesses — drawing clues one at a time, until
//! the bowl runs dry and the group moves to the next round.
//!
//! Every operation of the engine carries a contract describing exactly what
//! it returns and how it changes the game, over mathematical views of the
//! data: which transitions are legal in each state, when each typed error
//! comes back, that clues move between the bowl's pools without ever being
//! invented or dropped, and that the round-robin queue lets no pairing play
//! a second turn before every pairing has played once (see `laws`).
//!
//! Chat I/O, timers and identity resolution live outside the engine; the
//! bowl's shuffling calls into the `rand` crate through one trusted wrapper
//! whose contract states only that shuffling permutes.

pub mod bowl;
pub mod clue;
pub mod error;
pub mod game;
pub mod game_error;
pub mod laws;
pub mod player;
pub mod round;
mod shuffle;
pub mod text;
pub mod turn;
