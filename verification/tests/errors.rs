use memory_backend::memory::Memory;
use memory_backend::store::MemoryStore;
use memory_backend::types::Card;
use memory_backend::types::GameError;
use memory_backend::types::ReadyOutcome;

fn images() -> Vec<String> {
    vec!["a".to_string(), "b".to_string()]
}

fn lobby_session() -> Memory {
    let cards = vec![
        Card::new("a".to_string()),
        Card::new("b".to_string()),
        Card::new("a".to_string()),
        Card::new("b".to_string()),
    ];
    Memory::with_cards("s".to_string(), cards)
}

#[test]
fn create_rejects_wrong_key_and_double_create() {
    let mut store = MemoryStore::new("admin".to_string());
    let wrong = "guess".to_string();
    let key = "admin".to_string();
    assert!(matches!(
        store.create(&wrong, "s1".to_string(), images()),
        Err(GameError::InvalidMasterKey)
    ));
    assert!(store.game.is_none());

    assert!(store.create(&key, "s1".to_string(), images()).is_ok());
    assert!(matches!(
        store.create(&key, "s2".to_string(), images()),
        Err(GameError::AlreadyExists)
    ));
    assert_eq!(store.game.as_ref().unwrap().id, "s1");
}

#[test]
fn join_without_session_fails() {
    let mut store = MemoryStore::new("admin".to_string());
    let (r, ev) = store.join("Alice".to_string());
    assert!(matches!(r, Err(GameError::NoGameExists)));
    assert!(ev.is_empty());
}

#[test]
fn join_rejects_duplicate_name() {
    let mut m = lobby_session();
    let (r, _ev) = m.join_with_token("Alice".to_string(), "tok1".to_string());
    assert!(r.is_ok());
    let (r, ev) = m.join_with_token("Alice".to_string(), "tok2".to_string());
    assert!(matches!(r, Err(GameError::DuplicateName)));
    assert!(ev.is_empty());
    assert_eq!(m.players.len(), 1);
}

#[test]
fn join_rejects_reused_token() {
    let mut m = lobby_session();
    let (r, _ev) = m.join_with_token("Alice".to_string(), "tok1".to_string());
    assert!(r.is_ok());
    let (r, _ev) = m.join_with_token("Bob".to_string(), "tok1".to_string());
    assert!(matches!(r, Err(GameError::TokenCollision)));
    assert_eq!(m.players.len(), 1);
}

#[test]
fn join_rejected_once_running() {
    let mut m = lobby_session();
    let (r, _ev) = m.join_with_token("Alice".to_string(), "tok1".to_string());
    assert!(r.is_ok());
    let (r, _ev) = m.mark_ready(&"tok1".to_string());
    assert!(matches!(r, Ok(ReadyOutcome::Started)));
    let (r, ev) = m.join_with_token("Bob".to_string(), "tok2".to_string());
    assert!(matches!(r, Err(GameError::AlreadyRunning)));
    assert!(ev.is_empty());
}

#[test]
fn ready_rejects_unknown_token() {
    let mut m = lobby_session();
    let (r, _ev) = m.join_with_token("Alice".to_string(), "tok1".to_string());
    assert!(r.is_ok());
    let unknown = "mystery".to_string();
    let (r, ev) = m.mark_ready(&unknown);
    assert!(matches!(r, Err(GameError::InvalidToken)));
    assert!(ev.is_empty());
    assert!(!m.players[0].ready);
}

#[test]
fn pick_rejected_in_lobby() {
    let mut m = lobby_session();
    let (r, _ev) = m.join_with_token("Alice".to_string(), "tok1".to_string());
    assert!(r.is_ok());
    let (r, ev) = m.pick_card(&"tok1".to_string(), 0);
    assert!(matches!(r, Err(GameError::NotYetRunning)));
    assert!(ev.is_empty());
}

#[test]
fn pick_rejects_unknown_token_and_bad_slot() {
    let mut m = lobby_session();
    let (r, _ev) = m.join_with_token("Alice".to_string(), "tok1".to_string());
    assert!(r.is_ok());
    let tok = "tok1".to_string();
    let (r, _ev) = m.mark_ready(&tok);
    assert!(matches!(r, Ok(ReadyOutcome::Started)));

    let unknown = "mystery".to_string();
    let (r, _ev) = m.pick_card(&unknown, 0);
    assert!(matches!(r, Err(GameError::InvalidToken)));

    let (r, _ev) = m.pick_card(&tok, 4);
    assert!(matches!(r, Err(GameError::InvalidCard)));
}

#[test]
fn pick_rejects_already_flipped_and_resolved_slots() {
    let mut m = lobby_session();
    let (r, _ev) = m.join_with_token("Alice".to_string(), "tok1".to_string());
    assert!(r.is_ok());
    let tok = "tok1".to_string();
    let (r, _ev) = m.mark_ready(&tok);
    assert!(matches!(r, Ok(ReadyOutcome::Started)));

    let (r, _ev) = m.pick_card(&tok, 0);
    assert!(r.is_ok());
    // the armed slot cannot be picked again
    let (r, _ev) = m.pick_card(&tok, 0);
    assert!(matches!(r, Err(GameError::AlreadyFlipped)));

    // resolve the pair, then a resolved slot is rejected too
    let (r, _ev) = m.pick_card(&tok, 2);
    assert!(r.is_ok());
    assert!(m.cards[0].gone);
    let (r, _ev) = m.pick_card(&tok, 0);
    assert!(matches!(r, Err(GameError::AlreadyFlipped)));
}

#[test]
fn error_messages_and_status_codes() {
    assert_eq!(GameError::InvalidToken.message(), "Invalid token");
    assert_eq!(GameError::InvalidToken.status_code(), 401);
    assert_eq!(GameError::InvalidMasterKey.message(), "Invalid master key");
    assert_eq!(GameError::InvalidMasterKey.status_code(), 401);
    assert_eq!(GameError::AlreadyExists.message(), "Game already exists");
    assert_eq!(GameError::AlreadyExists.status_code(), 409);
    assert_eq!(GameError::NoGameExists.message(), "No game exists");
    assert_eq!(GameError::NoGameExists.status_code(), 404);
    assert_eq!(GameError::NotYourTurn.message(), "Internal server error");
    assert_eq!(GameError::NotYourTurn.status_code(), 500);
    assert_eq!(GameError::AlreadyFlipped.status_code(), 500);
}
