use yeats::bowl::Bowl;
use yeats::clue::Clue;
use yeats::error::Error;
use yeats::game::Game;
use yeats::game_error::GameError;
use yeats::player::Player;
use yeats::text::{i64_to_string, join_strings, u64_to_string, usize_to_string};
use yeats::turn::Turn;

fn player(name: &str, id: u64) -> Player {
    Player { name: name.to_string(), id }
}

fn clue(by: &Player, text: &str) -> Clue {
    Clue {
        entered_by: by.clone(),
        text: text.to_string(),
    }
}

#[test]
fn decimal_rendering() {
    assert_eq!(u64_to_string(0), "0");
    assert_eq!(u64_to_string(7), "7");
    assert_eq!(u64_to_string(42), "42");
    assert_eq!(u64_to_string(1234567890), "1234567890");
    assert_eq!(u64_to_string(u64::MAX), "18446744073709551615");
    assert_eq!(usize_to_string(305), "305");
    assert_eq!(i64_to_string(-42), "-42");
    assert_eq!(i64_to_string(9), "9");
    assert_eq!(i64_to_string(i64::MIN), "-9223372036854775808");
}

#[test]
fn joining_strings() {
    let parts: Vec<String> = Vec::new();
    assert_eq!(join_strings(&parts, ", "), "");
    let parts = vec!["a".to_string()];
    assert_eq!(join_strings(&parts, ", "), "a");
    let parts = vec!["a".to_string(), "b".to_string(), "c".to_string()];
    assert_eq!(join_strings(&parts, ", "), "a, b, c");
}

#[test]
fn bowl_status_tallies_by_contributor() {
    let alice = player("alice", 1);
    let bob = player("bob", 2);
    let mut b = Bowl::new();
    b.add_clue(&clue(&alice, "one"));
    b.add_clue(&clue(&bob, "two"));
    b.add_clue(&clue(&alice, "three"));
    assert_eq!(b.status(), "alice: 2\n\t\tbob: 1");
    assert_eq!(Bowl::new().status(), "");
}

#[test]
fn bowl_status_counts_solved_clues_too() {
    let alice = player("alice", 1);
    let mut b = Bowl::new();
    b.add_clue(&clue(&alice, "one"));
    b.add_clue(&clue(&alice, "two"));
    b.draw_clue();
    b.solve_showing_clue();
    assert_eq!(b.num_unsolved(), 1);
    assert_eq!(b.status(), "alice: 2");
}

#[test]
fn refill_with_nothing_solved_changes_nothing() {
    // Refilling only moves solved clues back; with none solved the
    // unsolved pool comes through untouched.
    let alice = player("alice", 1);
    let mut b = Bowl::new();
    b.add_clue(&clue(&alice, "one"));
    b.add_clue(&clue(&alice, "two"));
    let status_before = b.status();
    let b = b.refill();
    assert_eq!(b.num_unsolved(), 2);
    assert_eq!(b.status(), status_before);
    assert_eq!(b.showing(), None);
    // A drawn-and-solved clue does come back.
    let mut b = b;
    b.draw_clue();
    b.solve_showing_clue();
    assert_eq!(b.num_unsolved(), 1);
    let b = b.refill();
    assert_eq!(b.num_unsolved(), 2);
}

#[test]
fn turn_status_sentences() {
    let a = player("A", 1);
    let b = player("B", 2);
    let t = Turn::new(a, b);
    assert_eq!(
        t.status(),
        "A is getting ready to perform to B who will be guessing"
    );
    let t = t.as_guessing();
    assert_eq!(t.status(), "A is performing for B who is guessing");
    let t = t.as_ended();
    assert_eq!(t.status(), "A has finished performing for B who was guessing");
}

#[test]
fn game_status_in_each_phase() {
    let a = player("A", 1);
    let b = player("B", 2);
    let mut g = Game::new();
    g.add_player(a.clone()).unwrap();
    g.add_player(b.clone()).unwrap();
    g.add_clue(&clue(&a, "x")).unwrap();
    assert_eq!(
        g.status(),
        "Game is yet to start, feel free to join or add more clues.\n\tPlayers:\tA\n\t\tB\n\tClues added:\tA: 1"
    );
    g.start_game(9).unwrap();
    assert_eq!(g.status(), "We're currently playing round 1.");
    let t = g.prepare_turn().unwrap();
    let status = g.status();
    assert_eq!(
        status,
        format!(
            "We're currently playing round 1. {} is getting ready to perform to {} who will be guessing",
            t.performer.name, t.guesser.name
        )
    );
}

#[test]
fn ready_turn_message_mentions_both_players() {
    let a = player("A", 11);
    let b = player("B", 22);
    let mut g = Game::new();
    g.add_player(a.clone()).unwrap();
    g.add_player(b.clone()).unwrap();
    g.add_clue(&clue(&a, "x")).unwrap();
    g.start_game(9).unwrap();
    assert!(matches!(
        g.ready_turn_message(),
        Err(GameError::NoTurnsQueued)
    ));
    let t = g.prepare_turn().unwrap();
    let expected = format!(
        "Get ready <@{}>, you'll be performing for <@{}>!!",
        t.performer.id, t.guesser.id
    );
    assert_eq!(g.ready_turn_message().unwrap(), expected);
    g.start_turn().unwrap();
    assert!(matches!(
        g.ready_turn_message(),
        Err(GameError::BadTurnState(_))
    ));
}

#[test]
fn error_messages() {
    assert_eq!(
        Error::GameAlreadyStarted.message(),
        "I'm afraid I can't let you do that Dave, the game has already started"
    );
    assert_eq!(
        Error::TurnDoesntMatchPlayers.message(),
        "Turn doesn't match players or round"
    );
    assert_eq!(
        Error::EmptyBowl.message(),
        "Bowl is empty, it's time for the next round. Use `!next-round` to progress to the next round"
    );
    assert_eq!(
        Error::BowlNotEmpty.message(),
        "Can't go to the next round yet because the bowl isn't empty, queue up another turn instead with `!next-turn`"
    );
    assert_eq!(
        Error::NoChannel.message(),
        "No channel to play the game in, it should have been set when you ran `!start-game`"
    );
    assert_eq!(
        Error::GameError(GameError::AlreadyStarted).message(),
        "The game has already started"
    );
    assert_eq!(
        GameError::PlayerNotAllowedToDrawAClue(player("A", 1)).message(),
        "A is not allowed to draw a clue right now"
    );
    let t = Turn::new(player("A", 1), player("B", 2));
    assert_eq!(
        GameError::BadTurnState(t).message(),
        "Can't do that right now, because the turn state is Ready"
    );
    assert_eq!(
        Error::NoGame.message(),
        "No Game object in context, this bad... real bad..."
    );
    assert_eq!(
        Error::NotAGuildChannel.message(),
        "Channel isn't a guild channel, run `!start-game` in #general or something like that"
    );
    assert_eq!(
        Error::NoRound.message(),
        "Game is not currently in any round, it's either finished or hasn't started yet. To start it, run `!start-game` or `!reset` if you want to play again"
    );
    assert_eq!(GameError::CantDoThat.message(), "I can't let you do that");
    assert_eq!(
        GameError::NoTurnsQueued.message(),
        "There isn't a turn queued up yet"
    );
    let turn = Turn::new(player("A", 1), player("B", 2));
    assert_eq!(
        GameError::TurnDoesntMatchPlayers {
            turn,
            performer: player("A", 1),
            guesser: player("B", 2),
        }
        .message(),
        "Current turn doesn't match the performer A and guesser B"
    );
}

#[test]
fn ready_turn_message_needs_a_round() {
    let mut g = Game::new();
    assert!(matches!(g.ready_turn_message(), Err(GameError::CantDoThat)));
    g.add_player(player("A", 1)).unwrap();
    g.add_player(player("B", 2)).unwrap();
    g.start_game(1).unwrap();
    let mut late = vec![player("C", 3)];
    assert!(matches!(
        g.add_players(&mut late),
        Err(GameError::AlreadyStarted)
    ));
    assert_eq!(late.len(), 1);
}

#[test]
fn turn_summary_renders_through_clues() {
    let a = player("A", 1);
    let b = player("B", 2);
    let mut g = Game::new();
    g.add_player(a.clone()).unwrap();
    g.add_player(b.clone()).unwrap();
    g.add_clue(&clue(&a, "first")).unwrap();
    g.add_clue(&clue(&a, "second")).unwrap();
    g.start_game(9).unwrap();
    g.prepare_turn().unwrap();
    let (t, _) = g.start_turn().unwrap();
    let performer = t.performer.clone();
    g.draw_clue(&performer).unwrap();
    g.draw_clue(&performer).unwrap();
    let texts: Vec<String> = g
        .turn_summary()
        .unwrap()
        .clues_solved()
        .iter()
        .map(|c| c.text.clone())
        .collect();
    assert_eq!(texts.len(), 1);
    assert!(texts[0] == "first" || texts[0] == "second");
}
