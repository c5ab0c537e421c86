use vstd::prelude::*;
use vstd::string::StringExecFns;

verus! {

/// Lifecycle of a game session: it only ever moves forward,
/// `Lobby` -> `Running` -> `Finished`.
#[derive(Clone, Copy, Debug, PartialEq, Eq, Structural)]
pub enum GameState {
    Lobby,
    Running,
    Finished,
}

/// Order on lifecycle states: a session never moves backward.
pub open spec fn state_le(a: GameState, b: GameState) -> bool {
    match a {
        GameState::Lobby => true,
        GameState::Running => !(b is Lobby),
        GameState::Finished => b is Finished,
    }
}

/// One board slot: an image, whether it is currently face up, and
/// whether it has been matched and permanently taken out of play.
#[derive(Clone, Debug)]
pub struct Card {
    pub img_path: String,
    pub flipped: bool,
    pub gone: bool,
}

impl Card {
    pub fn new(img_path: String) -> (c: Card)
        ensures
            c.img_path@ == img_path@,
            !c.flipped,
            !c.gone,
    {
        Card { img_path, flipped: false, gone: false }
    }
}

/// One registered player. The bearer token is the player's sole identity;
/// `subscribed` records whether a live-update channel is currently attached
/// (the channel itself lives outside the engine, keyed by token).
#[derive(Clone, Debug)]
pub struct Player {
    pub token: String,
    pub name: String,
    pub points: usize,
    pub turn: bool,
    pub ready: bool,
    pub subscribed: bool,
}

impl Player {
    pub fn new(token: String, name: String) -> (p: Player)
        ensures
            p.token@ == token@,
            p.name@ == name@,
            p.points == 0,
            !p.turn,
            !p.ready,
            !p.subscribed,
    {
        Player { token, name, points: 0, turn: false, ready: false, subscribed: false }
    }
}

/// Every terminal condition an operation can surface to its caller.
#[derive(Clone, Copy, Debug, PartialEq, Eq, Structural)]
pub enum GameError {
    /// A query was made while no session exists.
    NoGameExists,
    /// The presented bearer token is not in the roster.
    InvalidToken,
    /// The presented admin key does not match the store's key.
    InvalidMasterKey,
    /// A pick referenced a slot outside the board.
    InvalidCard,
    /// A create was attempted while a session is live.
    AlreadyExists,
    /// A join was attempted after the lobby closed.
    AlreadyRunning,
    /// A join reused a name an active player already holds.
    DuplicateName,
    /// The freshly drawn token collided with an existing one; the join
    /// took no effect and may simply be retried.
    TokenCollision,
    /// A pick by a player whose turn flag is not set.
    NotYourTurn,
    /// A gameplay call before the session is running (or after it finished).
    NotYetRunning,
    /// A pick on a slot that is already face up or already resolved.
    AlreadyFlipped,
}

impl GameError {
    /// The message the transport layer reports for this condition.
    pub fn message(&self) -> (r: String)
        ensures
            *self is InvalidToken ==> r@ == "Invalid token"@,
            *self is InvalidMasterKey ==> r@ == "Invalid master key"@,
            *self is AlreadyExists ==> r@ == "Game already exists"@,
            *self is NoGameExists ==> r@ == "No game exists"@,
            !(*self is InvalidToken) && !(*self is InvalidMasterKey) && !(*self is AlreadyExists)
                && !(*self is NoGameExists) ==> r@ == "Internal server error"@,
    {
        match self {
            GameError::InvalidToken => String::from_str("Invalid token"),
            GameError::InvalidMasterKey => String::from_str("Invalid master key"),
            GameError::AlreadyExists => String::from_str("Game already exists"),
            GameError::NoGameExists => String::from_str("No game exists"),
            _ => String::from_str("Internal server error"),
        }
    }

    /// The HTTP-style status code the transport layer pairs with `message`.
    pub fn status_code(&self) -> (r: u16)
        ensures
            *self is InvalidToken || *self is InvalidMasterKey ==> r == 401,
            *self is AlreadyExists ==> r == 409,
            *self is NoGameExists ==> r == 404,
            !(*self is InvalidToken) && !(*self is InvalidMasterKey) && !(*self is AlreadyExists)
                && !(*self is NoGameExists) ==> r == 500,
    {
        match self {
            GameError::InvalidToken => 401,
            GameError::InvalidMasterKey => 401,
            GameError::AlreadyExists => 409,
            GameError::NoGameExists => 404,
            _ => 500,
        }
    }
}

/// Outcome of a successful pick.
#[derive(Clone, Copy, Debug, PartialEq, Eq, Structural)]
pub enum PickOutcome {
    /// First pick of a round: the slot is armed, the turn does not change.
    AwaitingSecondPick,
    /// Second pick completed a pair: both slots were resolved.
    Matched,
    /// Second pick did not match: the round's cards were hidden again
    /// and the turn moved on.
    Mismatched,
}

/// Outcome of a successful ready call.
#[derive(Clone, Copy, Debug, PartialEq, Eq, Structural)]
pub enum ReadyOutcome {
    /// At least one player is still not ready.
    Pending,
    /// Every player is ready; the session is running.
    Started,
}

/// One leaderboard row: name, points, ready flag, turn flag.
pub type Players = Vec<(String, usize, bool, bool)>;

/// Parameters of a create request.
pub struct CreateQuery {
    pub id: String,
}

/// Parameters of a join request.
pub struct JoinQuery {
    pub id: String,
    pub name: String,
}

/// Parameters of a pick request.
pub struct PickQuery {
    pub id: String,
    pub card: usize,
}

/// Reply to a pick: the image that was turned up and whether the
/// acting player keeps the turn.
#[derive(Clone, Debug)]
pub struct PickResponse {
    pub img_path: String,
    pub turn: bool,
}

/// Payload of a `hideCard` event: a slot resolved out of play.
#[derive(Clone, Copy, Debug)]
pub struct HideResponse {
    pub card_id: usize,
}

/// Payload of a `gameOver` event.
#[derive(Clone, Copy, Debug)]
pub struct GameOverResponse {
    pub game_state: GameState,
}

/// Payload of a `flipCard` event: a slot turned face up.
#[derive(Clone, Debug)]
pub struct FlipResponse {
    pub card_id: usize,
    pub img_path: String,
}

/// Payload of a `turn` event, naming the player whose turn begins.
#[derive(Clone, Debug)]
pub struct TurnResponse {
    pub turn: bool,
    pub name: String,
}

/// Payload of a `leaderboard` event: the full ordered roster.
#[derive(Clone, Debug)]
pub struct LeaderboardResponse {
    pub players: Players,
}

impl LeaderboardResponse {
    /// Renders the roster as leaderboard rows, in registry order.
    pub fn from(players: &Vec<Player>) -> (r: Self)
        ensures
            rows_match(r.players@, players@),
    {
        let mut rows: Players = Vec::new();
        let mut i: usize = 0;
        while i < players.len()
            invariant
                i <= players@.len(),
                rows@.len() == i,
                forall|j: int| 0 <= j < i ==> row_matches(#[trigger] rows@[j], players@[j]),
            decreases players@.len() - i,
        {
            let p = &players[i];
            rows.push((p.name.clone(), p.points, p.ready, p.turn));
            i = i + 1;
        }
        LeaderboardResponse { players: rows }
    }
}

/// Reply to a state query: lifecycle state plus the caller's ready flag.
#[derive(Clone, Copy, Debug)]
pub struct StateResponse {
    pub game_state: GameState,
    pub ready: bool,
}

/// Full reconciliation view for a (re)connecting client.
#[derive(Clone, Debug)]
pub struct InitResponse {
    pub game_state: GameState,
    pub ready: bool,
    pub flipped: Vec<(usize, String)>,
    pub hidden: Vec<usize>,
    pub players: Players,
}

impl InitResponse {
    pub fn from(
        game_state: GameState,
        ready: bool,
        flipped: Vec<(usize, String)>,
        hidden: Vec<usize>,
        players: Players,
    ) -> (r: Self)
        ensures
            r.game_state == game_state,
            r.ready == ready,
            r.flipped == flipped,
            r.hidden == hidden,
            r.players == players,
    {
        Self { game_state, ready, flipped, hidden, players }
    }
}

/// One named event, addressed to every connected subscriber.
#[derive(Clone, Debug)]
pub enum Event {
    Flip(FlipResponse),
    Hide(HideResponse),
    Turn(TurnResponse),
    Leaderboard(LeaderboardResponse),
    GameOver(GameOverResponse),
}

impl Event {
    /// The event name under which the payload is delivered on the wire.
    pub fn name(&self) -> (r: String)
        ensures
            *self is Flip ==> r@ == "flipCard"@,
            *self is Hide ==> r@ == "hideCard"@,
            *self is Turn ==> r@ == "turn"@,
            *self is Leaderboard ==> r@ == "leaderboard"@,
            *self is GameOver ==> r@ == "gameOver"@,
    {
        match self {
            Event::Flip(_) => String::from_str("flipCard"),
            Event::Hide(_) => String::from_str("hideCard"),
            Event::Turn(_) => String::from_str("turn"),
            Event::Leaderboard(_) => String::from_str("leaderboard"),
            Event::GameOver(_) => String::from_str("gameOver"),
        }
    }
}

/// A leaderboard row faithfully renders one player.
pub open spec fn row_matches(row: (String, usize, bool, bool), p: Player) -> bool {
    &&& row.0@ == p.name@
    &&& row.1 == p.points
    &&& row.2 == p.ready
    &&& row.3 == p.turn
}

/// A whole roster rendered as leaderboard rows, in registry order.
pub open spec fn rows_match(rows: Seq<(String, usize, bool, bool)>, ps: Seq<Player>) -> bool {
    &&& rows.len() == ps.len()
    &&& forall|i: int| 0 <= i < ps.len() ==> row_matches(#[trigger] rows[i], ps[i])
}

/// The event is a flip of `slot` showing `img`.
pub open spec fn is_flip(e: Event, slot: int, img: Seq<char>) -> bool {
    e matches Event::Flip(f) && f.card_id == slot && f.img_path@ == img
}

/// The event is a hide (resolution) of `slot`.
pub open spec fn is_hide(e: Event, slot: int) -> bool {
    e matches Event::Hide(h) && h.card_id == slot
}

/// The event is a turn change handing the turn to the player named `name`.
pub open spec fn is_turn(e: Event, name: Seq<char>) -> bool {
    e matches Event::Turn(t) && t.turn && t.name@ == name
}

/// The event is a leaderboard snapshot of exactly the roster `ps`.
pub open spec fn is_leaderboard(e: Event, ps: Seq<Player>) -> bool {
    e matches Event::Leaderboard(l) && rows_match(l.players@, ps)
}

/// The event announces the end of the game in lifecycle state `st`.
pub open spec fn is_game_over(e: Event, st: GameState) -> bool {
    e matches Event::GameOver(g) && g.game_state == st
}

} // verus!
