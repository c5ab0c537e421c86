use memory_backend::types::Event;
use memory_backend::types::FlipResponse;
use memory_backend::types::GameOverResponse;
use memory_backend::types::GameState;
use memory_backend::types::HideResponse;
use memory_backend::types::InitResponse;
use memory_backend::types::LeaderboardResponse;
use memory_backend::types::Player;
use memory_backend::types::TurnResponse;

#[test]
fn event_wire_names() {
    let flip = Event::Flip(FlipResponse { card_id: 0, img_path: "x".to_string() });
    assert_eq!(flip.name(), "flipCard");
    let hide = Event::Hide(HideResponse { card_id: 1 });
    assert_eq!(hide.name(), "hideCard");
    let turn = Event::Turn(TurnResponse { turn: true, name: "Alice".to_string() });
    assert_eq!(turn.name(), "turn");
    let lead = Event::Leaderboard(LeaderboardResponse { players: vec![] });
    assert_eq!(lead.name(), "leaderboard");
    let over = Event::GameOver(GameOverResponse { game_state: GameState::Finished });
    assert_eq!(over.name(), "gameOver");
}

#[test]
fn leaderboard_renders_roster_in_order() {
    let mut alice = Player::new("tokA".to_string(), "Alice".to_string());
    alice.points = 3;
    alice.ready = true;
    alice.turn = true;
    let bob = Player::new("tokB".to_string(), "Bob".to_string());
    let roster = vec![alice, bob];
    let lead = LeaderboardResponse::from(&roster);
    assert_eq!(lead.players.len(), 2);
    assert_eq!(lead.players[0], ("Alice".to_string(), 3, true, true));
    assert_eq!(lead.players[1], ("Bob".to_string(), 0, false, false));
}

#[test]
fn init_response_from_keeps_fields() {
    let init = InitResponse::from(
        GameState::Running,
        true,
        vec![(4, "img".to_string())],
        vec![0, 1],
        vec![("Alice".to_string(), 1, true, true)],
    );
    assert_eq!(init.game_state, GameState::Running);
    assert!(init.ready);
    assert_eq!(init.flipped, vec![(4, "img".to_string())]);
    assert_eq!(init.hidden, vec![0, 1]);
    assert_eq!(init.players.len(), 1);
}

#[test]
fn player_and_card_constructors() {
    let p = Player::new("tok".to_string(), "Ann".to_string());
    assert_eq!(p.token, "tok");
    assert_eq!(p.name, "Ann");
    assert_eq!(p.points, 0);
    assert!(!p.turn && !p.ready && !p.subscribed);

    let c = memory_backend::types::Card::new("img".to_string());
    assert_eq!(c.img_path, "img");
    assert!(!c.flipped && !c.gone);
}
