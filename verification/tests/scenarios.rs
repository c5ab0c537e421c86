use memory_backend::memory::Memory;
use memory_backend::types::Card;
use memory_backend::types::Event;
use memory_backend::types::GameError;
use memory_backend::types::GameState;
use memory_backend::types::PickOutcome;
use memory_backend::types::ReadyOutcome;

fn fixed_board() -> Memory {
    let cards = vec![
        Card::new("imgX".to_string()),
        Card::new("imgY".to_string()),
        Card::new("imgX".to_string()),
        Card::new("imgY".to_string()),
    ];
    Memory::with_cards("s1".to_string(), cards)
}

fn two_player_running() -> (Memory, String, String) {
    let mut m = fixed_board();
    let (r, _ev) = m.join_with_token("Alice".to_string(), "tokA".to_string());
    assert!(r.is_ok());
    let (r, _ev) = m.join_with_token("Bob".to_string(), "tokB".to_string());
    assert!(r.is_ok());
    let (r, _ev) = m.mark_ready(&"tokA".to_string());
    assert!(matches!(r, Ok(ReadyOutcome::Pending)));
    let (r, _ev) = m.mark_ready(&"tokB".to_string());
    assert!(matches!(r, Ok(ReadyOutcome::Started)));
    (m, "tokA".to_string(), "tokB".to_string())
}

#[test]
fn scenario_first_pick_and_match() {
    let (mut m, a, _b) = two_player_running();

    let (r, ev) = m.pick_card(&a, 0);
    assert!(matches!(r, Ok(PickOutcome::AwaitingSecondPick)));
    assert_eq!(ev.len(), 1);
    match &ev[0] {
        Event::Flip(f) => {
            assert_eq!(f.card_id, 0);
            assert_eq!(f.img_path, "imgX");
        },
        _ => panic!("expected a flip event"),
    }
    // the turn did not change on a first pick
    assert!(m.players[0].turn);

    let (r, ev) = m.pick_card(&a, 2);
    assert!(matches!(r, Ok(PickOutcome::Matched)));
    assert_eq!(m.players[0].points, 1);
    assert_eq!(ev.len(), 4);
    match &ev[1] {
        Event::Hide(h) => assert_eq!(h.card_id, 0),
        _ => panic!("expected a hide event for slot 0"),
    }
    match &ev[2] {
        Event::Hide(h) => assert_eq!(h.card_id, 2),
        _ => panic!("expected a hide event for slot 2"),
    }
    match &ev[3] {
        Event::Leaderboard(l) => {
            assert_eq!(l.players.len(), 2);
            assert_eq!(l.players[0], ("Alice".to_string(), 1, true, true));
            assert_eq!(l.players[1], ("Bob".to_string(), 0, true, false));
        },
        _ => panic!("expected a leaderboard event"),
    }
    // the acting player keeps the turn after a match
    assert!(m.players[0].turn);
    assert_eq!(m.state, GameState::Running);
    assert!(m.cards[0].gone && m.cards[2].gone);
    assert!(!m.cards[1].gone && !m.cards[3].gone);
}

#[test]
fn scenario_second_match_finishes_game() {
    let (mut m, a, _b) = two_player_running();
    let (r, _ev) = m.pick_card(&a, 0);
    assert!(r.is_ok());
    let (r, _ev) = m.pick_card(&a, 2);
    assert!(matches!(r, Ok(PickOutcome::Matched)));

    let (r, _ev) = m.pick_card(&a, 1);
    assert!(matches!(r, Ok(PickOutcome::AwaitingSecondPick)));
    let (r, ev) = m.pick_card(&a, 3);
    assert!(matches!(r, Ok(PickOutcome::Matched)));
    assert_eq!(m.players[0].points, 2);
    assert_eq!(ev.len(), 5);
    match &ev[1] {
        Event::Hide(h) => assert_eq!(h.card_id, 1),
        _ => panic!("expected a hide event for slot 1"),
    }
    match &ev[2] {
        Event::Hide(h) => assert_eq!(h.card_id, 3),
        _ => panic!("expected a hide event for slot 3"),
    }
    match &ev[3] {
        Event::GameOver(g) => assert_eq!(g.game_state, GameState::Finished),
        _ => panic!("expected a game-over event"),
    }
    assert_eq!(m.state, GameState::Finished);
    assert!(m.cards.iter().all(|c| c.gone));
}

#[test]
fn scenario_pick_out_of_turn_rejected() {
    let (mut m, a, b) = two_player_running();
    let (r, _ev) = m.pick_card(&a, 0);
    assert!(r.is_ok());
    let (r, ev) = m.pick_card(&b, 1);
    assert!(matches!(r, Err(GameError::NotYourTurn)));
    assert!(ev.is_empty());
    // the turn is still Alice's: no resolution occurred
    assert!(m.players[0].turn);
    assert!(!m.players[1].turn);
    assert!(m.cards[0].flipped);
}

#[test]
fn scenario_pick_after_finish_rejected() {
    let (mut m, a, _b) = two_player_running();
    for &(first, second) in &[(0usize, 2usize), (1, 3)] {
        let (r, _ev) = m.pick_card(&a, first);
        assert!(r.is_ok());
        let (r, _ev) = m.pick_card(&a, second);
        assert!(matches!(r, Ok(PickOutcome::Matched)));
    }
    assert_eq!(m.state, GameState::Finished);
    // a pick on an already-resolved slot of a finished game fails
    // NotYetRunning: the lifecycle check comes first
    let (r, ev) = m.pick_card(&a, 0);
    assert!(matches!(r, Err(GameError::NotYetRunning)));
    assert!(ev.is_empty());
}

#[test]
fn mismatch_rotates_turn_round_robin() {
    let (mut m, a, b) = two_player_running();

    let (r, _ev) = m.pick_card(&a, 0);
    assert!(r.is_ok());
    let (r, ev) = m.pick_card(&a, 1);
    assert!(matches!(r, Ok(PickOutcome::Mismatched)));
    assert_eq!(ev.len(), 3);
    match &ev[1] {
        Event::Turn(t) => {
            assert!(t.turn);
            assert_eq!(t.name, "Bob");
        },
        _ => panic!("expected a turn event"),
    }
    // scores untouched by a mismatch
    assert_eq!(m.players[0].points, 0);
    assert_eq!(m.players[1].points, 0);
    // both cards are hidden again
    assert!(m.cards.iter().all(|c| !c.flipped));
    assert!(!m.players[0].turn);
    assert!(m.players[1].turn);

    // after a second mismatch the turn returns to the original player
    let (r, _ev) = m.pick_card(&b, 0);
    assert!(r.is_ok());
    let (r, _ev) = m.pick_card(&b, 3);
    assert!(matches!(r, Ok(PickOutcome::Mismatched)));
    assert!(m.players[0].turn);
    assert!(!m.players[1].turn);
}

#[test]
fn single_player_keeps_turn_after_mismatch() {
    let mut m = fixed_board();
    let (r, _ev) = m.join_with_token("Alice".to_string(), "tokA".to_string());
    assert!(r.is_ok());
    let a = "tokA".to_string();
    let (r, _ev) = m.mark_ready(&a);
    assert!(matches!(r, Ok(ReadyOutcome::Started)));
    let (r, _ev) = m.pick_card(&a, 0);
    assert!(r.is_ok());
    let (r, _ev) = m.pick_card(&a, 1);
    assert!(matches!(r, Ok(PickOutcome::Mismatched)));
    // with one player the rotation comes straight back around
    assert!(m.players[0].turn);
}

#[test]
fn finishes_after_all_pairs_despite_mismatches() {
    let (mut m, a, b) = two_player_running();
    // Alice mismatches; the turn passes to Bob
    let (r, _ev) = m.pick_card(&a, 0);
    assert!(r.is_ok());
    let (r, _ev) = m.pick_card(&a, 1);
    assert!(matches!(r, Ok(PickOutcome::Mismatched)));
    // Bob matches both pairs; two matches end the two-pair board
    let (r, _ev) = m.pick_card(&b, 0);
    assert!(r.is_ok());
    let (r, _ev) = m.pick_card(&b, 2);
    assert!(matches!(r, Ok(PickOutcome::Matched)));
    let (r, _ev) = m.pick_card(&b, 1);
    assert!(r.is_ok());
    let (r, _ev) = m.pick_card(&b, 3);
    assert!(matches!(r, Ok(PickOutcome::Matched)));
    assert_eq!(m.state, GameState::Finished);
    // exactly as many matches as pairs, however many mismatches between
    assert_eq!(m.players.iter().map(|p| p.points).sum::<usize>(), 2);
    assert_eq!(m.players[1].points, 2);
    assert_eq!(m.players[0].points, 0);
    // no turn flag remains once the session is finished
    assert!(m.players.iter().all(|p| !p.turn));
}

#[test]
fn ready_is_idempotent() {
    let mut m = fixed_board();
    let (r, _ev) = m.join_with_token("Alice".to_string(), "tokA".to_string());
    assert!(r.is_ok());
    let (r, _ev) = m.join_with_token("Bob".to_string(), "tokB".to_string());
    assert!(r.is_ok());
    let a = "tokA".to_string();
    let (r, _ev) = m.mark_ready(&a);
    assert!(matches!(r, Ok(ReadyOutcome::Pending)));
    // marking the same player ready again still reports Pending
    let (r, _ev) = m.mark_ready(&a);
    assert!(matches!(r, Ok(ReadyOutcome::Pending)));
    let (r, _ev) = m.mark_ready(&"tokB".to_string());
    assert!(matches!(r, Ok(ReadyOutcome::Started)));
    // once running, a repeated ready call is a no-op reporting Started
    let (r, ev) = m.mark_ready(&a);
    assert!(matches!(r, Ok(ReadyOutcome::Started)));
    assert!(ev.is_empty());
    assert_eq!(m.state, GameState::Running);
    assert!(m.players[0].turn);
}

#[test]
fn snapshot_reflects_board_state() {
    let (mut m, a, _b) = two_player_running();
    let (r, _ev) = m.pick_card(&a, 0);
    assert!(r.is_ok());

    let init = m.snapshot_for(&a).unwrap();
    assert_eq!(init.game_state, GameState::Running);
    assert_eq!(init.flipped, vec![(0, "imgX".to_string())]);
    assert!(init.hidden.is_empty());
    assert_eq!(init.players.len(), 2);

    let (r, _ev) = m.pick_card(&a, 2);
    assert!(r.is_ok());
    let init = m.snapshot_for(&a).unwrap();
    assert!(init.flipped.is_empty());
    assert_eq!(init.hidden, vec![0, 2]);

    let unknown = "nope".to_string();
    assert!(matches!(m.snapshot_for(&unknown), Err(GameError::InvalidToken)));
}
