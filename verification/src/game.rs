use vstd::prelude::*;
use vstd::string::StringExecFns;

use crate::bowl::{Bowl, BowlV, bowl_status_text};
use crate::clue::{Clue, ClueV};
use crate::error::Error;
use crate::game_error::GameError;
use crate::player::{Player, PlayerV, same_player};
use crate::round::{Round, RoundV, triple_matches};
use crate::text::joined;
use crate::turn::{Turn, TurnState, TurnStateV, TurnSummary, TurnV, turn_status_text};

verus! {

/// The mathematical value of the game's top-level state.
pub ghost enum GameStateV {
    PreGame,
    Round(RoundV),
    End,
}

/// The mathematical value of a `Game`.
pub ghost struct GameV {
    pub players: Seq<PlayerV>,
    pub bowl: BowlV,
    pub state: GameStateV,
    pub admin: Option<PlayerV>,
    pub num_rounds: i64,
    pub main_channel: Option<u64>,
}

/// The game as it stands when created or reset.
pub open spec fn initial_game() -> GameV {
    GameV {
        players: Seq::empty(),
        bowl: BowlV { unsolved: Seq::empty(), solved: Seq::empty(), showing: None },
        state: GameStateV::PreGame,
        admin: None,
        num_rounds: 3,
        main_channel: None,
    }
}

/// The display names of a list of players, in order.
pub open spec fn player_names(ps: Seq<PlayerV>) -> Seq<Seq<char>> {
    ps.map_values(|p: PlayerV| p.name)
}

/// What `Game::status` reports in each phase of the game.
pub open spec fn game_status_text(g: GameV) -> Seq<char> {
    match g.state {
        GameStateV::PreGame => "Game is yet to start, feel free to join or add more clues.\n\tPlayers:\t"@
            + joined(player_names(g.players), "\n\t\t"@) + "\n\tClues added:\t"@ + bowl_status_text(
            g.bowl,
        ),
        GameStateV::Round(rv) => {
            let base = "We're currently playing round "@ + crate::text::decimal_i64(
                rv.round_number as int,
            ) + "."@;
            match rv.current_turn {
                Some(t) => base + " "@ + turn_status_text(t),
                None => base,
            }
        },
        GameStateV::End => "Game as finished"@,
    }
}

/// The top-level state machine: the game is joined and fed clues before it
/// starts, then plays through a fixed number of rounds, then ends.
#[derive(Debug)]
pub enum GameState {
    PreGame,
    Round(Round),
    End,
}

impl View for GameState {
    type V = GameStateV;

    open spec fn view(&self) -> GameStateV {
        match self {
            GameState::PreGame => GameStateV::PreGame,
            GameState::Round(r) => GameStateV::Round(r@),
            GameState::End => GameStateV::End,
        }
    }
}

/// The mathematical value of one `draw_clue` result.
pub ghost struct DrawClueV {
    pub clue: Option<ClueV>,
    pub performer: PlayerV,
    pub guesser: PlayerV,
}

/// What a successful `draw_clue` hands back: the next clue (none when the
/// bowl ran dry) and the pairing it is for.
#[derive(Debug)]
pub struct DrawClue {
    pub clue: Option<Clue>,
    pub performer: Player,
    pub guesser: Player,
}

impl View for DrawClue {
    type V = DrawClueV;

    open spec fn view(&self) -> DrawClueV {
        DrawClueV {
            clue: self.clue.deep_view(),
            performer: self.performer@,
            guesser: self.guesser@,
        }
    }
}

/// The one mutable aggregate of the engine: the players, the bowl of clues,
/// and where the game stands.
#[derive(Debug)]
pub struct Game {
    pub players: Vec<Player>,
    pub bowl: Bowl,
    pub state: GameState,
    pub admin: Option<Player>,
    pub num_rounds: i64,
    pub main_channel: Option<u64>,
}

impl View for Game {
    type V = GameV;

    open spec fn view(&self) -> GameV {
        GameV {
            players: self.players.deep_view(),
            bowl: self.bowl@,
            state: self.state@,
            admin: self.admin.deep_view(),
            num_rounds: self.num_rounds,
            main_channel: self.main_channel,
        }
    }
}

fn player_names_vec(ps: &Vec<Player>) -> (r: Vec<String>)
    ensures
        r.deep_view() == player_names(ps.deep_view()),
{
    let mut r: Vec<String> = Vec::new();
    let mut i: usize = 0;
    while i < ps.len()
        invariant
            i <= ps.len(),
            r@.len() == i,
            forall|j: int| 0 <= j < i ==> (#[trigger] r@[j])@ == ps@[j]@.name,
        decreases ps.len() - i,
    {
        let name = ps[i].name.clone();
        r.push(name);
        i += 1;
    }
    proof {
        assert(r.deep_view() =~= player_names(ps.deep_view()));
    }
    r
}

impl Game {
    /// A fresh game, yet to be joined or started.
    pub fn new() -> (r: Game)
        ensures
            r@ == initial_game(),
    {
        let r = Game {
            players: Vec::new(),
            bowl: Bowl::new(),
            state: GameState::PreGame,
            admin: None,
            num_rounds: 3,
            main_channel: None,
        };
        proof {
            assert(r@.players =~= Seq::<PlayerV>::empty());
        }
        r
    }

    /// Throws everything away and starts over.
    pub fn reset(&mut self)
        ensures
            final(self)@ == initial_game(),
    {
        *self = Game::new();
    }

    /// Records who is running the game.
    pub fn set_admin(&mut self, user: Player)
        ensures
            final(self)@ == (GameV { admin: Some(user@), ..old(self)@ }),
    {
        self.admin = Some(user);
    }

    /// Adds one player; players can only join before the game starts.
    pub fn add_player(&mut self, p: Player) -> (r: Result<(), Error>)
        ensures
            old(self)@.state is PreGame ==> r is Ok && final(self)@ == (GameV {
                players: old(self)@.players.push(p@),
                ..old(self)@
            }),
            !(old(self)@.state is PreGame) ==> (r matches Err(e) && e is GameAlreadyStarted)
                && final(self)@ == old(self)@,
    {
        match self.state {
            GameState::PreGame => {
                let ghost before = self@.players;
                let ghost pv = p@;
                self.players.push(p);
                proof {
                    assert(self@.players =~= before.push(pv));
                }
                Ok(())
            },
            _ => Err(Error::GameAlreadyStarted),
        }
    }

    /// Adds a group of players at once, draining the given list, and replies
    /// with their names; only before the game starts.
    pub fn add_players(&mut self, p: &mut Vec<Player>) -> (r: Result<Option<String>, GameError>)
        ensures
            old(self)@.state is PreGame ==> (r matches Ok(o) && o matches Some(m) && m@
                == "Added players "@ + joined(player_names(old(p).deep_view()), ", "@))
                && final(self)@ == (GameV {
                players: old(self)@.players + old(p).deep_view(),
                ..old(self)@
            }) && final(p)@.len() == 0,
            !(old(self)@.state is PreGame) ==> (r matches Err(e) && e is AlreadyStarted)
                && final(self)@ == old(self)@ && final(p).deep_view() == old(p).deep_view(),
    {
        match self.state {
            GameState::PreGame => {
                let ghost added = p.deep_view();
                let names = player_names_vec(p);
                let mut reply = String::from_str("Added players ");
                let joined_names = crate::text::join_strings(&names, ", ");
                reply.append(joined_names.as_str());
                self.players.append(p);
                proof {
                    assert(self@.players =~= old(self)@.players + added);
                }
                Ok(Some(reply))
            },
            _ => Err(GameError::AlreadyStarted),
        }
    }

    /// The players' names, one per line.
    pub fn list_players(&self) -> (r: Option<String>)
        ensures
            r matches Some(m) && m@ == joined(player_names(self@.players), "\n"@),
    {
        let names = player_names_vec(&self.players);
        Some(crate::text::join_strings(&names, "\n"))
    }

    /// Drops a clue into the bowl; only before the game starts, so nobody
    /// can feed clues to a round already being played.
    pub fn add_clue(&mut self, c: &Clue) -> (r: Result<(), Error>)
        ensures
            old(self)@.state is PreGame ==> r is Ok && final(self)@ == (GameV {
                bowl: BowlV { unsolved: old(self)@.bowl.unsolved.push(c@), ..old(self)@.bowl },
                ..old(self)@
            }),
            !(old(self)@.state is PreGame) ==> (r matches Err(e) && e is GameAlreadyStarted)
                && final(self)@ == old(self)@,
    {
        match self.state {
            GameState::PreGame => {
                self.bowl.add_clue(c);
                Ok(())
            },
            _ => Err(Error::GameAlreadyStarted),
        }
    }

    /// Who is performing right now, if a turn is current.
    pub fn current_performer(&self) -> (r: Option<Player>)
        ensures
            r.deep_view() == match self@.state {
                GameStateV::Round(rv) => match rv.current_turn {
                    Some(t) => Some(t.performer),
                    None => None::<PlayerV>,
                },
                _ => None::<PlayerV>,
            },
    {
        match &self.state {
            GameState::Round(Round { round_number: _, turn_queue: _, current_turn: Some(t) }) => {
                Some(t.performer.clone())
            },
            _ => None,
        }
    }

    /// The number of the round being played, if one is.
    pub fn current_round_number(&self) -> (r: Option<i64>)
        ensures
            r == match self@.state {
                GameStateV::Round(rv) => Some(rv.round_number),
                _ => None::<i64>,
            },
    {
        match &self.state {
            GameState::Round(r) => Some(r.round_number),
            _ => None,
        }
    }

    /// Starts the game in the given channel: the first round is generated
    /// from the players present, and nobody can join or add clues any more.
    pub fn start_game(&mut self, channel: u64) -> (r: Result<(), Error>)
        ensures
            old(self)@.state is PreGame ==> r is Ok && (final(self)@.state matches
                GameStateV::Round(rv) && crate::round::is_fresh_round(rv, 1, old(self)@.players))
                && final(self)@ == (GameV {
                state: final(self)@.state,
                main_channel: Some(channel),
                ..old(self)@
            }),
            !(old(self)@.state is PreGame) ==> (r matches Err(e) && e is GameAlreadyStarted)
                && final(self)@ == old(self)@,
    {
        match &self.state {
            GameState::PreGame => {
                self.state = GameState::Round(Round::new(1, &self.players));
                self.main_channel = Some(channel);
                Ok(())
            },
            _ => Err(Error::GameAlreadyStarted),
        }
    }

    /// Moves the game along: from `PreGame` into round one (a channel must
    /// already be set), from a finished round into the next one after
    /// refilling the bowl, and from the last round to the end. A round can
    /// only be left once the bowl has no unsolved clues.
    pub fn advance_game(&mut self) -> (r: Result<(), Error>)
        ensures
            old(self)@.state is PreGame ==> {
                &&& old(self)@.main_channel is None ==> (r matches Err(e) && e is NoChannel)
                    && final(self)@ == old(self)@
                &&& old(self)@.main_channel is Some ==> r is Ok && (final(self)@.state matches
                    GameStateV::Round(rv) && crate::round::is_fresh_round(
                    rv,
                    1,
                    old(self)@.players,
                )) && final(self)@ == (GameV { state: final(self)@.state, ..old(self)@ })
            },
            old(self)@.state matches GameStateV::Round(rv) ==> {
                &&& old(self)@.bowl.unsolved.len() > 0 ==> (r matches Err(e) && e is BowlNotEmpty)
                    && final(self)@ == old(self)@
                &&& old(self)@.bowl.unsolved.len() == 0 && rv.round_number < old(self)@.num_rounds
                    ==> r is Ok && (final(self)@.state matches GameStateV::Round(rv2)
                    && crate::round::is_fresh_round(
                    rv2,
                    rv.round_number + 1,
                    old(self)@.players,
                )) && final(self)@ == (GameV {
                    state: final(self)@.state,
                    bowl: BowlV {
                        unsolved: old(self)@.bowl.unsolved + old(self)@.bowl.solved,
                        solved: Seq::empty(),
                        showing: None,
                    },
                    ..old(self)@
                })
                &&& old(self)@.bowl.unsolved.len() == 0 && rv.round_number >= old(
                    self,
                )@.num_rounds ==> r is Ok && final(self)@ == (GameV {
                    state: GameStateV::End,
                    ..old(self)@
                })
            },
            old(self)@.state is End ==> (r matches Err(e) && e is GameFinished) && final(self)@
                == old(self)@,
    {
        let mut st = GameState::End;
        core::mem::swap(&mut self.state, &mut st);
        match st {
            GameState::PreGame => {
                if self.main_channel.is_none() {
                    self.state = GameState::PreGame;
                    Err(Error::NoChannel)
                } else {
                    self.state = GameState::Round(Round::new(1, &self.players));
                    Ok(())
                }
            },
            GameState::Round(r0) => {
                if self.bowl.num_unsolved() > 0 {
                    self.state = GameState::Round(r0);
                    Err(Error::BowlNotEmpty)
                } else if r0.round_number < self.num_rounds {
                    let mut b = Bowl::new();
                    core::mem::swap(&mut self.bowl, &mut b);
                    self.bowl = b.refill();
                    self.state = GameState::Round(Round::new(r0.round_number + 1, &self.players));
                    Ok(())
                } else {
                    self.state = GameState::End;
                    Ok(())
                }
            },
            GameState::End => {
                self.state = GameState::End;
                Err(Error::GameFinished)
            },
        }
    }

    /// Brings the next turn up as current (see `Round::prepare_turn`) and
    /// returns it; there must be something left in the bowl to play for.
    pub fn prepare_turn(&mut self) -> (r: Result<Turn, Error>)
        ensures
            old(self)@.bowl.unsolved.len() == 0 ==> (r matches Err(e) && e is EmptyBowl) && final(self)@ == old(self)@,
            old(self)@.bowl.unsolved.len() > 0 ==> {
                &&& old(self)@.state is PreGame ==> (r matches Err(e) && e is GameNotStartedYet)
                    && final(self)@ == old(self)@
                &&& old(self)@.state is End ==> (r matches Err(e) && e is GameFinished) && final(self)@ == old(self)@
                &&& old(self)@.state matches GameStateV::Round(rv) ==> {
                    &&& rv.current_turn is None && rv.turn_queue.len() == 0 ==> (r matches Err(e)
                        && e is EmptyTurnQueue) && final(self)@ == old(self)@
                    &&& rv.current_turn is None && rv.turn_queue.len() > 0 ==> (r matches Ok(t)
                        && t@ == rv.turn_queue[0] && final(self)@ == (GameV {
                        state: GameStateV::Round(
                            RoundV {
                                turn_queue: rv.turn_queue.drop_first(),
                                current_turn: Some(rv.turn_queue[0]),
                                ..rv
                            },
                        ),
                        ..old(self)@
                    }))
                    &&& rv.current_turn matches Some(t0) ==> {
                        &&& t0.state is Ended ==> (r matches Ok(t) && {
                            let q2 = rv.turn_queue.push(
                                crate::turn::fresh_turn(t0.performer, t0.guesser),
                            );
                            t@ == q2[0] && final(self)@ == (GameV {
                                state: GameStateV::Round(
                                    RoundV {
                                        turn_queue: q2.drop_first(),
                                        current_turn: Some(q2[0]),
                                        ..rv
                                    },
                                ),
                                ..old(self)@
                            })
                        })
                        &&& !(t0.state is Ended) ==> (r matches Err(e)
                            && e is CurrentTurnNotYetFinished) && final(self)@ == old(self)@
                    }
                }
            },
    {
        if self.bowl.num_unsolved() == 0 {
            return Err(Error::EmptyBowl);
        }
        match &self.state {
            GameState::Round(r0) => {
                match r0.clone().prepare_turn() {
                    Ok(r2) => {
                        let t = match &r2.current_turn {
                            Some(t) => t.clone(),
                            None => {
                                return Err(Error::NoTurnsQueued);
                            },
                        };
                        self.state = GameState::Round(r2);
                        Ok(t)
                    },
                    Err(e) => Err(e),
                }
            },
            GameState::PreGame => Err(Error::GameNotStartedYet),
            GameState::End => Err(Error::GameFinished),
        }
    }

    /// Announces the current turn's pairing while it is still `Ready`.
    pub fn ready_turn_message(&self) -> (r: Result<String, GameError>)
        ensures
            !(self@.state is Round) ==> (r matches Err(e) && e is CantDoThat),
            self@.state matches GameStateV::Round(rv) ==> {
                &&& rv.current_turn is None ==> (r matches Err(e) && e is NoTurnsQueued)
                &&& rv.current_turn matches Some(t) ==> {
                    &&& t.state is Ready ==> (r matches Ok(m) && m@
                        == crate::round::ready_message_text(t))
                    &&& !(t.state is Ready) ==> (r matches Err(e) && e matches
                        GameError::BadTurnState(b) && b@ == t)
                }
            },
    {
        match &self.state {
            GameState::Round(r0) => r0.ready_turn_message(),
            GameState::PreGame => Err(GameError::CantDoThat),
            GameState::End => Err(GameError::CantDoThat),
        }
    }

    /// Starts the current turn and returns it together with the live round
    /// number, which a later `end_turn` must present again.
    pub fn start_turn(&mut self) -> (r: Result<(Turn, i64), Error>)
        ensures
            old(self)@.state is PreGame ==> (r matches Err(e) && e is GameNotStartedYet) && final(self)@ == old(self)@,
            old(self)@.state is End ==> (r matches Err(e) && e is GameFinished) && final(self)@
                == old(self)@,
            old(self)@.state matches GameStateV::Round(rv) ==> {
                &&& rv.current_turn is None ==> (r matches Err(e) && e is NoTurnsQueued) && final(self)@ == old(self)@
                &&& rv.current_turn matches Some(t0) ==> {
                    &&& t0.state is Ready ==> (r matches Ok(p) && {
                        let started = TurnV {
                            state: TurnStateV::Guessing(Seq::empty()),
                            ..t0
                        };
                        p.0@ == started && p.1 == rv.round_number && final(self)@ == (GameV {
                            state: GameStateV::Round(RoundV { current_turn: Some(started), ..rv }),
                            ..old(self)@
                        })
                    })
                    &&& t0.state is Guessing ==> (r matches Err(e)
                        && e is CurrentTurnNotYetFinished) && final(self)@ == old(self)@
                    &&& t0.state is Ended ==> (r matches Err(e) && e is CurrentTurnHasEnded)
                        && final(self)@ == old(self)@
                }
            },
    {
        match &self.state {
            GameState::Round(r0) => {
                let round_number = r0.round_number;
                match r0.clone().start_turn() {
                    Ok((r2, t)) => {
                        self.state = GameState::Round(r2);
                        Ok((t, round_number))
                    },
                    Err(e) => Err(e),
                }
            },
            GameState::PreGame => Err(Error::GameNotStartedYet),
            GameState::End => Err(Error::GameFinished),
        }
    }

    /// Ends the current turn, provided the performer/guesser/round triple
    /// matches the live turn (a stale timer fails closed), and puts any
    /// still-showing, unconfirmed clue back into the unsolved pool.
    pub fn end_turn(&mut self, p: &Player, g: &Player, round_number: i64) -> (r: Result<
        (),
        Error,
    >)
        ensures
            old(self)@.state is PreGame ==> (r matches Err(e) && e is GameNotStartedYet) && final(self)@ == old(self)@,
            old(self)@.state is End ==> (r matches Err(e) && e is GameFinished) && final(self)@
                == old(self)@,
            old(self)@.state matches GameStateV::Round(rv) ==> {
                &&& rv.current_turn is None ==> (r matches Err(e) && e is NoTurnsQueued) && final(self)@ == old(self)@
                &&& rv.current_turn matches Some(t0) ==> {
                    &&& !triple_matches(t0, p@, g@, rv.round_number, round_number) ==> (r matches
                        Err(e) && e is TurnDoesntMatchPlayers) && final(self)@ == old(self)@
                    &&& triple_matches(t0, p@, g@, rv.round_number, round_number) ==> {
                        &&& t0.state is Ready ==> (r matches Err(e)
                            && e is CurrentTurnNotYetStarted) && final(self)@ == old(self)@
                        &&& t0.state is Ended ==> (r matches Err(e) && e is CurrentTurnHasEnded)
                            && final(self)@ == old(self)@
                        &&& t0.state is Guessing ==> r is Ok && (final(self)@.bowl.showing is None
                            && final(self)@.bowl.solved == old(self)@.bowl.solved && final(self)@.bowl.unsolved.to_multiset() == old(self)@.bowl.unsolved.to_multiset().add(
                            old(self)@.bowl.showing_seq().to_multiset(),
                        ) && final(self)@.bowl.clues() == old(self)@.bowl.clues()) && final(self)@
                            == (GameV {
                            state: GameStateV::Round(
                                RoundV {
                                    current_turn: Some(
                                        TurnV {
                                            state: TurnStateV::Ended(t0.summary()),
                                            ..t0
                                        },
                                    ),
                                    ..rv
                                },
                            ),
                            bowl: final(self)@.bowl,
                            ..old(self)@
                        })
                    }
                }
            },
    {
        match &self.state {
            GameState::Round(r0) => {
                match r0.clone().end_turn(p, g, round_number) {
                    Ok(r2) => {
                        self.bowl.put_back();
                        self.state = GameState::Round(r2);
                        Ok(())
                    },
                    Err(e) => Err(e),
                }
            },
            GameState::PreGame => Err(Error::GameNotStartedYet),
            GameState::End => Err(Error::GameFinished),
        }
    }

    /// Draws the next clue for the performer. Asking for another clue
    /// implicitly confirms the one still showing: it is appended to the
    /// turn's ledger and marked solved in the bowl, and only then is the
    /// next clue drawn; with an empty pool the result carries no clue. Only
    /// the recorded performer may draw, and only while the turn is
    /// `Guessing` — so a clue is never handed out otherwise.
    pub fn draw_clue(&mut self, by: &Player) -> (r: Result<DrawClue, Error>)
        ensures
            old(self)@.state is PreGame ==> (r matches Err(e) && e is GameNotStartedYet) && final(self)@ == old(self)@,
            old(self)@.state is End ==> (r matches Err(e) && e is GameFinished) && final(self)@
                == old(self)@,
            old(self)@.state matches GameStateV::Round(rv) ==> {
                &&& rv.current_turn is None ==> (r matches Err(e) && e is NoTurnsQueued) && final(self)@ == old(self)@
                &&& rv.current_turn matches Some(t0) ==> {
                    &&& t0.state is Ready ==> (r matches Err(e) && e is CurrentTurnNotYetStarted)
                        && final(self)@ == old(self)@
                    &&& t0.state is Ended ==> (r matches Err(e) && e is CurrentTurnHasEnded)
                        && final(self)@ == old(self)@
                    &&& t0.state matches TurnStateV::Guessing(ledger) ==> {
                        &&& !same_player(t0.performer, by@) ==> (r matches Err(e)
                            && e is PlayerNotAllowedToDrawAClue) && final(self)@ == old(self)@
                        &&& same_player(t0.performer, by@) ==> (r matches Ok(dc) && {
                            let bowl0 = old(self)@.bowl;
                            let ledger2 = match bowl0.showing {
                                Some(c) => ledger.push(c),
                                None => ledger,
                            };
                            &&& dc@.performer == t0.performer
                            &&& dc@.guesser == t0.guesser
                            &&& final(self)@.bowl.solved == bowl0.solved + bowl0.showing_seq()
                            &&& bowl0.unsolved.len() == 0 ==> dc@.clue is None && final(self)@.bowl.unsolved == bowl0.unsolved && final(self)@.bowl.showing is None
                            &&& bowl0.unsolved.len() > 0 ==> dc@.clue == Some(bowl0.unsolved[0])
                                && final(self)@.bowl.unsolved == bowl0.unsolved.drop_first()
                                && final(self)@.bowl.showing == Some(bowl0.unsolved[0])
                            &&& final(self)@.bowl.clues() == bowl0.clues()
                            &&& final(self)@ == (GameV {
                                state: GameStateV::Round(
                                    RoundV {
                                        current_turn: Some(
                                            TurnV {
                                                state: TurnStateV::Guessing(ledger2),
                                                ..t0
                                            },
                                        ),
                                        ..rv
                                    },
                                ),
                                bowl: final(self)@.bowl,
                                ..old(self)@
                            })
                        })
                    }
                }
            },
    {
        let mut st = GameState::End;
        core::mem::swap(&mut self.state, &mut st);
        match st {
            GameState::Round(r0) => {
                let Round { round_number, turn_queue, current_turn } = r0;
                match current_turn {
                    Some(t) => {
                        let Turn { performer, guesser, state } = t;
                        match state {
                            TurnState::Guessing(ledger) => {
                                if performer == *by {
                                    let ledger2 = match self.bowl.showing() {
                                        Some(c) => ledger.with_clue(c),
                                        None => ledger,
                                    };
                                    self.bowl.solve_showing_clue();
                                    let clue = self.bowl.draw_clue();
                                    let dc = DrawClue {
                                        clue,
                                        performer: performer.clone(),
                                        guesser: guesser.clone(),
                                    };
                                    self.state = GameState::Round(
                                        Round {
                                            round_number,
                                            turn_queue,
                                            current_turn: Some(
                                                Turn {
                                                    performer,
                                                    guesser,
                                                    state: TurnState::Guessing(ledger2),
                                                },
                                            ),
                                        },
                                    );
                                    Ok(dc)
                                } else {
                                    self.state = GameState::Round(
                                        Round {
                                            round_number,
                                            turn_queue,
                                            current_turn: Some(
                                                Turn {
                                                    performer,
                                                    guesser,
                                                    state: TurnState::Guessing(ledger),
                                                },
                                            ),
                                        },
                                    );
                                    Err(Error::PlayerNotAllowedToDrawAClue)
                                }
                            },
                            other => {
                                let is_ready = match &other {
                                    TurnState::Ready => true,
                                    _ => false,
                                };
                                self.state = GameState::Round(
                                    Round {
                                        round_number,
                                        turn_queue,
                                        current_turn: Some(
                                            Turn { performer, guesser, state: other },
                                        ),
                                    },
                                );
                                if is_ready {
                                    Err(Error::CurrentTurnNotYetStarted)
                                } else {
                                    Err(Error::CurrentTurnHasEnded)
                                }
                            },
                        }
                    },
                    None => {
                        self.state = GameState::Round(
                            Round { round_number, turn_queue, current_turn: None },
                        );
                        Err(Error::NoTurnsQueued)
                    },
                }
            },
            GameState::PreGame => {
                self.state = GameState::PreGame;
                Err(Error::GameNotStartedYet)
            },
            GameState::End => {
                self.state = GameState::End;
                Err(Error::GameFinished)
            },
        }
    }

    /// One line of orientation for the chat: who can still join, which
    /// round is being played and where its turn stands, or that the game is
    /// over.
    pub fn status(&self) -> (r: String)
        ensures
            r@ == game_status_text(self@),
    {
        match &self.state {
            GameState::PreGame => {
                let mut s = String::from_str(
                    "Game is yet to start, feel free to join or add more clues.\n\tPlayers:\t",
                );
                let names = player_names_vec(&self.players);
                let name_list = crate::text::join_strings(&names, "\n\t\t");
                s.append(name_list.as_str());
                s.append("\n\tClues added:\t");
                let bowl_tally = self.bowl.status();
                s.append(bowl_tally.as_str());
                s
            },
            GameState::Round(r0) => {
                let mut s = String::from_str("We're currently playing round ");
                let number = crate::text::i64_to_string(r0.round_number);
                s.append(number.as_str());
                s.append(".");
                match &r0.current_turn {
                    Some(t) => {
                        s.append(" ");
                        let turn_line = t.status();
                        s.append(turn_line.as_str());
                    },
                    None => {},
                }
                s
            },
            GameState::End => String::from_str("Game as finished"),
        }
    }

    /// The ledger of the current turn, once that turn has started.
    pub fn turn_summary(&self) -> (r: Result<TurnSummary, Error>)
        ensures
            self@.state is PreGame ==> (r matches Err(e) && e is GameNotStartedYet),
            self@.state is End ==> (r matches Err(e) && e is GameFinished),
            self@.state matches GameStateV::Round(rv) ==> {
                &&& rv.current_turn is None ==> (r matches Err(e) && e is NoTurnsQueued)
                &&& rv.current_turn matches Some(t) ==> {
                    &&& t.state is Ready ==> (r matches Err(e) && e is CurrentTurnNotYetStarted)
                    &&& !(t.state is Ready) ==> (r matches Ok(s) && s@ == t.summary())
                }
            },
    {
        match &self.state {
            GameState::Round(r) => match &r.current_turn {
                Some(t) => match &t.state {
                    TurnState::Ready => Err(Error::CurrentTurnNotYetStarted),
                    TurnState::Guessing(summ) => Ok(summ.clone()),
                    TurnState::Ended(summ) => Ok(summ.clone()),
                },
                None => Err(Error::NoTurnsQueued),
            },
            GameState::PreGame => Err(Error::GameNotStartedYet),
            GameState::End => Err(Error::GameFinished),
        }
    }
}

} // verus!
