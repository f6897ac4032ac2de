use yeats::clue::Clue;
use yeats::error::Error;
use yeats::game::{Game, GameState};
use yeats::player::Player;
use yeats::turn::TurnState;

fn player(name: &str, id: u64) -> Player {
    Player { name: name.to_string(), id }
}

fn clue(by: &Player, text: &str) -> Clue {
    Clue {
        entered_by: by.clone(),
        text: text.to_string(),
    }
}

/// A game in round one with the given players and clues.
fn started_game(players: &[Player], clues: &[Clue]) -> Game {
    let mut g = Game::new();
    for p in players {
        g.add_player(p.clone()).unwrap();
    }
    for c in clues {
        g.add_clue(c).unwrap();
    }
    g.start_game(77).unwrap();
    g
}

#[test]
fn new_game_is_pregame() {
    let g = Game::new();
    assert!(matches!(g.state, GameState::PreGame));
    assert_eq!(g.num_rounds, 3);
    assert_eq!(g.main_channel, None);
    assert_eq!(g.current_round_number(), None);
    assert!(g.current_performer().is_none());
    assert_eq!(g.bowl.num_unsolved(), 0);
}

#[test]
fn start_game_builds_round_one() {
    // Scenario: two players join, the game starts in a channel, and round
    // one holds one turn per player, paired with each other.
    let a = player("A", 1);
    let b = player("B", 2);
    let g = started_game(&[a.clone(), b.clone()], &[]);
    assert_eq!(g.main_channel, Some(77));
    assert_eq!(g.current_round_number(), Some(1));
    match &g.state {
        GameState::Round(r) => {
            assert_eq!(r.round_number, 1);
            assert!(r.current_turn.is_none());
            assert_eq!(r.turn_queue.len(), 2);
            let t0 = &r.turn_queue[0];
            let t1 = &r.turn_queue[1];
            assert!(matches!(t0.state, TurnState::Ready));
            assert!(matches!(t1.state, TurnState::Ready));
            assert_ne!(t0.performer, t1.performer);
            assert_eq!(t0.guesser, t1.performer);
            assert_eq!(t1.guesser, t0.performer);
            assert!(t0.performer == a || t0.performer == b);
        }
        _ => panic!("game did not enter a round"),
    }
}

#[test]
fn add_player_after_start_is_rejected() {
    let a = player("A", 1);
    let b = player("B", 2);
    let mut g = started_game(&[a, b], &[]);
    let c = player("C", 3);
    assert!(matches!(g.add_player(c), Err(Error::GameAlreadyStarted)));
}

#[test]
fn add_clue_after_start_is_rejected() {
    // Scenario: adding a clue once the game has started fails and leaves
    // the bowl as it was.
    let a = player("A", 1);
    let b = player("B", 2);
    let cl = clue(&a, "a secret");
    let mut g = started_game(&[a.clone(), b], &[cl]);
    assert_eq!(g.bowl.num_unsolved(), 1);
    let late = clue(&a, "too late");
    assert!(matches!(g.add_clue(&late), Err(Error::GameAlreadyStarted)));
    assert_eq!(g.bowl.num_unsolved(), 1);
}

#[test]
fn full_turn_draws_and_tallies() {
    // Scenario: with two clues in the bowl, the first draw shows one clue,
    // and the second draw confirms it into the ledger and shows the other.
    let a = player("A", 1);
    let b = player("B", 2);
    let c1 = clue(&a, "c1");
    let c2 = clue(&a, "c2");
    let mut g = started_game(&[a, b], &[c1.clone(), c2.clone()]);

    let prepared = g.prepare_turn().unwrap();
    assert!(matches!(prepared.state, TurnState::Ready));
    let (started, round_number) = g.start_turn().unwrap();
    assert!(matches!(started.state, TurnState::Guessing(_)));
    assert_eq!(round_number, 1);
    let performer = started.performer.clone();
    let guesser = started.guesser.clone();

    let d1 = g.draw_clue(&performer).unwrap();
    let first = d1.clue.expect("the bowl held two clues");
    assert!(first == c1 || first == c2);
    assert_eq!(g.bowl.showing(), Some(first.clone()));
    assert_eq!(g.turn_summary().unwrap().clues_solved().len(), 0);

    let d2 = g.draw_clue(&performer).unwrap();
    let second = d2.clue.expect("one clue was left");
    assert_ne!(first, second);
    let summary = g.turn_summary().unwrap();
    assert_eq!(summary.clues_solved().as_slice(), &[first]);

    // The third draw returns no clue: the bowl ran dry.
    let d3 = g.draw_clue(&performer).unwrap();
    assert!(d3.clue.is_none());
    assert_eq!(g.turn_summary().unwrap().clues_solved().len(), 2);
    assert_eq!(g.bowl.num_unsolved(), 0);

    g.end_turn(&performer, &guesser, round_number).unwrap();
    // Both clues were confirmed, so nothing returns to the unsolved pool.
    assert_eq!(g.bowl.num_unsolved(), 0);
}

#[test]
fn draw_before_start_is_rejected() {
    // A clue is never handed out while the current turn is not guessing.
    let a = player("A", 1);
    let b = player("B", 2);
    let mut g = started_game(&[a.clone(), b], &[clue(&a, "x")]);
    assert!(matches!(g.draw_clue(&a), Err(Error::NoTurnsQueued)));
    let prepared = g.prepare_turn().unwrap();
    let performer = prepared.performer.clone();
    assert!(matches!(
        g.draw_clue(&performer),
        Err(Error::CurrentTurnNotYetStarted)
    ));
    assert_eq!(g.bowl.showing(), None);
}

#[test]
fn only_the_performer_may_draw() {
    let a = player("A", 1);
    let b = player("B", 2);
    let mut g = started_game(&[a, b], &[clue(&player("A", 1), "x")]);
    g.prepare_turn().unwrap();
    let (t, _) = g.start_turn().unwrap();
    let guesser = t.guesser.clone();
    assert!(matches!(
        g.draw_clue(&guesser),
        Err(Error::PlayerNotAllowedToDrawAClue)
    ));
}

#[test]
fn end_turn_with_stale_round_fails_closed() {
    // Scenario: an end_turn carrying a round number that no longer matches
    // the live round is rejected and changes nothing.
    let a = player("A", 1);
    let b = player("B", 2);
    let mut g = started_game(&[a, b], &[clue(&player("A", 1), "x")]);
    g.prepare_turn().unwrap();
    let (t, round_number) = g.start_turn().unwrap();
    let performer = t.performer.clone();
    let guesser = t.guesser.clone();
    assert!(matches!(
        g.end_turn(&performer, &guesser, round_number + 1),
        Err(Error::TurnDoesntMatchPlayers)
    ));
    // The turn is still live: drawing works.
    assert!(g.draw_clue(&performer).is_ok());
    assert!(matches!(
        g.end_turn(&guesser, &performer, round_number),
        Err(Error::TurnDoesntMatchPlayers)
    ));
    g.end_turn(&performer, &guesser, round_number).unwrap();
}

#[test]
fn unconfirmed_clue_returns_to_the_bowl() {
    // Scenario: the turn ends while a clue is still showing; the clue was
    // never confirmed, so it goes back to the unsolved pool.
    let a = player("A", 1);
    let b = player("B", 2);
    let c1 = clue(&a, "c1");
    let c2 = clue(&a, "c2");
    let mut g = started_game(&[a, b], &[c1, c2]);
    g.prepare_turn().unwrap();
    let (t, round_number) = g.start_turn().unwrap();
    let performer = t.performer.clone();
    let guesser = t.guesser.clone();
    g.draw_clue(&performer).unwrap();
    assert_eq!(g.bowl.num_unsolved(), 1);
    assert!(g.bowl.showing().is_some());
    g.end_turn(&performer, &guesser, round_number).unwrap();
    assert_eq!(g.bowl.num_unsolved(), 2);
    assert_eq!(g.bowl.showing(), None);
}

#[test]
fn ended_turn_cannot_act_again() {
    let a = player("A", 1);
    let b = player("B", 2);
    let mut g = started_game(&[a, b], &[clue(&player("A", 1), "x")]);
    g.prepare_turn().unwrap();
    let (t, round_number) = g.start_turn().unwrap();
    let performer = t.performer.clone();
    let guesser = t.guesser.clone();
    g.end_turn(&performer, &guesser, round_number).unwrap();
    assert!(matches!(
        g.draw_clue(&performer),
        Err(Error::CurrentTurnHasEnded)
    ));
    assert!(matches!(
        g.end_turn(&performer, &guesser, round_number),
        Err(Error::CurrentTurnHasEnded)
    ));
    assert!(matches!(g.start_turn(), Err(Error::CurrentTurnHasEnded)));
}

#[test]
fn prepare_needs_clues_and_a_finished_turn() {
    let a = player("A", 1);
    let b = player("B", 2);
    let mut g = started_game(&[a, b], &[]);
    assert!(matches!(g.prepare_turn(), Err(Error::EmptyBowl)));
    g = started_game(&[player("A", 1), player("B", 2)], &[clue(&player("A", 1), "x")]);
    g.prepare_turn().unwrap();
    assert!(matches!(
        g.prepare_turn(),
        Err(Error::CurrentTurnNotYetFinished)
    ));
    g.start_turn().unwrap();
    assert!(matches!(
        g.prepare_turn(),
        Err(Error::CurrentTurnNotYetFinished)
    ));
}

#[test]
fn prepare_with_no_players_finds_no_turns() {
    let a = player("A", 1);
    let mut g = started_game(&[], &[clue(&a, "x")]);
    assert!(matches!(g.prepare_turn(), Err(Error::EmptyTurnQueue)));
}

#[test]
fn round_robin_over_one_round() {
    // Round-robin fairness: with players A, B and C, taking three turns to
    // completion makes every player perform once before anyone repeats.
    let players = [player("A", 1), player("B", 2), player("C", 3)];
    let clues: Vec<Clue> = (0..12)
        .map(|i| clue(&players[0], &format!("clue {}", i)))
        .collect();
    let mut g = started_game(&players, &clues);
    let mut performer_ids = Vec::new();
    for _ in 0..3 {
        let t = g.prepare_turn().unwrap();
        let (t, round_number) = g.start_turn().unwrap();
        assert_eq!(t.performer, g.current_performer().unwrap());
        let performer = t.performer.clone();
        let guesser = t.guesser.clone();
        g.draw_clue(&performer).unwrap();
        g.end_turn(&performer, &guesser, round_number).unwrap();
        performer_ids.push(performer.id);
    }
    let mut sorted = performer_ids.clone();
    sorted.sort();
    assert_eq!(sorted, vec![1, 2, 3]);

    // A fourth completed turn repeats the first pairing.
    let t = g.prepare_turn().unwrap();
    assert_eq!(t.performer.id, performer_ids[0]);
}

#[test]
fn advance_game_guards_and_refills() {
    // Round transition guard: leaving a round with unsolved clues left is
    // refused and changes nothing; once the bowl is empty the next round
    // starts with every clue playable again.
    let a = player("A", 1);
    let b = player("B", 2);
    let c1 = clue(&a, "c1");
    let c2 = clue(&a, "c2");
    let mut g = started_game(&[a, b], &[c1, c2]);
    assert!(matches!(g.advance_game(), Err(Error::BowlNotEmpty)));
    assert_eq!(g.current_round_number(), Some(1));
    assert_eq!(g.bowl.num_unsolved(), 2);

    // Solve both clues over one turn.
    g.prepare_turn().unwrap();
    let (t, round_number) = g.start_turn().unwrap();
    let performer = t.performer.clone();
    let guesser = t.guesser.clone();
    for _ in 0..3 {
        g.draw_clue(&performer).unwrap();
    }
    g.end_turn(&performer, &guesser, round_number).unwrap();
    assert_eq!(g.bowl.num_unsolved(), 0);

    // Every clue comes back for round two: none were lost or duplicated.
    g.advance_game().unwrap();
    assert_eq!(g.current_round_number(), Some(2));
    assert_eq!(g.bowl.num_unsolved(), 2);
}

#[test]
fn game_ends_after_the_last_round() {
    let a = player("A", 1);
    let b = player("B", 2);
    let mut g = started_game(&[a.clone(), b.clone()], &[clue(&a, "only")]);

    for round in 1..=3 {
        assert_eq!(g.current_round_number(), Some(round));
        g.prepare_turn().unwrap();
        let (t, round_number) = g.start_turn().unwrap();
        let performer = t.performer.clone();
        let guesser = t.guesser.clone();
        g.draw_clue(&performer).unwrap();
        g.draw_clue(&performer).unwrap();
        g.end_turn(&performer, &guesser, round_number).unwrap();
        g.advance_game().unwrap();
    }
    assert!(matches!(g.state, GameState::End));
    assert!(matches!(g.advance_game(), Err(Error::GameFinished)));
    // The bowl is checked before the game state, and it is empty here.
    assert!(matches!(g.prepare_turn(), Err(Error::EmptyBowl)));
    assert!(matches!(g.start_turn(), Err(Error::GameFinished)));
}

#[test]
fn advance_game_needs_a_channel_in_pregame() {
    let mut g = Game::new();
    g.add_player(player("A", 1)).unwrap();
    g.add_player(player("B", 2)).unwrap();
    assert!(matches!(g.advance_game(), Err(Error::NoChannel)));
    assert!(matches!(g.state, GameState::PreGame));
    g.main_channel = Some(5);
    g.advance_game().unwrap();
    assert_eq!(g.current_round_number(), Some(1));
}

#[test]
fn pregame_round_calls_are_rejected() {
    let mut g = Game::new();
    assert!(matches!(g.start_turn(), Err(Error::GameNotStartedYet)));
    assert!(matches!(g.end_turn(&player("A", 1), &player("B", 2), 1), Err(Error::GameNotStartedYet)));
    assert!(matches!(g.turn_summary(), Err(Error::GameNotStartedYet)));
    assert!(matches!(g.draw_clue(&player("A", 1)), Err(Error::GameNotStartedYet)));
    g.add_clue(&clue(&player("A", 1), "x")).unwrap();
    assert!(matches!(g.prepare_turn(), Err(Error::GameNotStartedYet)));
}

#[test]
fn reset_clears_everything() {
    let a = player("A", 1);
    let b = player("B", 2);
    let mut g = started_game(&[a.clone(), b], &[clue(&a, "x")]);
    g.set_admin(a);
    g.reset();
    assert!(matches!(g.state, GameState::PreGame));
    assert!(g.players.is_empty());
    assert!(g.admin.is_none());
    assert_eq!(g.main_channel, None);
    assert_eq!(g.bowl.num_unsolved(), 0);
}

#[test]
fn add_players_drains_and_replies() {
    let mut g = Game::new();
    let mut batch = vec![player("A", 1), player("B", 2)];
    let reply = g.add_players(&mut batch).unwrap();
    assert_eq!(reply.as_deref(), Some("Added players A, B"));
    assert!(batch.is_empty());
    assert_eq!(g.players.len(), 2);
    assert_eq!(g.list_players().as_deref(), Some("A\nB"));
}

#[test]
fn players_are_equal_by_identity() {
    let before = player("OldName", 9);
    let renamed = player("NewName", 9);
    let other = player("OldName", 10);
    assert_eq!(before, renamed);
    assert_ne!(before, other);
}
