use vstd::prelude::*;

use crate::counting::count_gone;
use crate::counting::count_img;
use crate::counting::lemma_count_gone_zero;
use crate::counting::lemma_count_img_push;
use crate::rng::shuffle_cards;
use crate::types::is_flip;
use crate::types::is_game_over;
use crate::types::is_hide;
use crate::types::is_leaderboard;
use crate::types::is_turn;
use crate::types::rows_match;
use crate::types::Card;
use crate::types::Event;
use crate::types::FlipResponse;
use crate::types::GameError;
use crate::types::GameOverResponse;
use crate::types::GameState;
use crate::types::HideResponse;
use crate::types::InitResponse;
use crate::types::LeaderboardResponse;
use crate::types::PickOutcome;
use crate::types::Player;
use crate::types::ReadyOutcome;
use crate::types::StateResponse;
use crate::types::TurnResponse;

verus! {

/// The player with the turn flag set to `t` and all else kept.
pub open spec fn with_turn(p: Player, t: bool) -> Player {
    Player { turn: t, ..p }
}

/// The player marked ready and all else kept.
pub open spec fn with_ready(p: Player) -> Player {
    Player { ready: true, ..p }
}

/// The player after a successful match: one point earned if acting,
/// the turn flag dropped if the game just finished.
pub open spec fn match_update(p: Player, acting: bool, finished: bool) -> Player {
    Player {
        points: if acting {
            (p.points + 1) as usize
        } else {
            p.points
        },
        turn: if finished {
            false
        } else {
            p.turn
        },
        ..p
    }
}

/// The player with a live-update subscription attached.
pub open spec fn with_subscribed(p: Player) -> Player {
    Player { subscribed: true, ..p }
}

/// The card turned face up.
pub open spec fn flip_up(c: Card) -> Card {
    Card { flipped: true, ..c }
}

/// The card resolved out of play after a match.
pub open spec fn resolve(c: Card) -> Card {
    Card { flipped: false, gone: true, ..c }
}

/// The card turned face down again (resolved flag kept).
pub open spec fn unflip(c: Card) -> Card {
    Card { flipped: false, ..c }
}

/// Every player in the roster is ready.
pub open spec fn all_ready(ps: Seq<Player>) -> bool {
    forall|i: int| 0 <= i < ps.len() ==> (#[trigger] ps[i]).ready
}

/// Every card on the board is resolved.
pub open spec fn all_gone(cs: Seq<Card>) -> bool {
    forall|i: int| 0 <= i < cs.len() ==> (#[trigger] cs[i]).gone
}

/// The entries are exactly the face-up slots of the board, each with its
/// image, listed once each in ascending slot order.
pub open spec fn flipped_entries_ok(es: Seq<(usize, String)>, cs: Seq<Card>) -> bool {
    &&& forall|k: int| 0 <= k < es.len() ==> 0 <= (#[trigger] es[k]).0 < cs.len()
        && cs[es[k].0 as int].flipped && es[k].1@ == cs[es[k].0 as int].img_path@
    &&& forall|j: int| 0 <= j < cs.len() && (#[trigger] cs[j]).flipped ==> exists|k: int|
        0 <= k < es.len() && (#[trigger] es[k]).0 == j
    &&& forall|k1: int, k2: int| 0 <= k1 < k2 < es.len() ==> (#[trigger] es[k1]).0 < (
    #[trigger] es[k2]).0
}

/// The entries are exactly the resolved slots of the board, listed once
/// each in ascending slot order.
pub open spec fn hidden_entries_ok(es: Seq<usize>, cs: Seq<Card>) -> bool {
    &&& forall|k: int| 0 <= k < es.len() ==> 0 <= (#[trigger] es[k]) < cs.len() && cs[es[k] as int].gone
    &&& forall|j: int| 0 <= j < cs.len() && (#[trigger] cs[j]).gone ==> exists|k: int|
        0 <= k < es.len() && (#[trigger] es[k]) == j
    &&& forall|k1: int, k2: int| 0 <= k1 < k2 < es.len() ==> (#[trigger] es[k1]) < (#[trigger] es[k2])
}

/// Everything `mark_ready` ensures of the session before (`pre`) and
/// after (`post`) the call, the result and the emitted events.
pub open spec fn ready_post(pre: Memory, post: Memory, token: Seq<char>, res: Result<ReadyOutcome, GameError>, events: Seq<Event>) -> bool {
    &&& (post.wf())
    &&& (crate::types::state_le(pre.state, post.state))
    &&& (post.id@ == pre.id@)
    &&& (post.cards@ == pre.cards@)
    &&& (!pre.has_token(token) ==> res == Err::<ReadyOutcome, GameError>(
                GameError::InvalidToken,
            ) && post == pre && events.len() == 0)
    &&& (pre.has_token(token) ==> res is Ok)
    &&& (pre.has_token(token) && !(pre.state is Lobby) ==> res == Ok::<
                ReadyOutcome, GameError>(ReadyOutcome::Started) && post == pre && events.len() == 0)
    &&& (({
                let idx = pre.token_index(token);
                let readied = pre.players@.update(
                    idx,
                    with_ready(pre.players@[idx]),
                );
                &&& (pre.has_token(token) && pre.state is Lobby && !all_ready(readied)
                    ==> {
                    &&& res == Ok::<ReadyOutcome, GameError>(ReadyOutcome::Pending)
                    &&& post.state is Lobby
                    &&& post.players@ == readied
                    &&& post.current_turn == pre.current_turn
                    &&& events.len() == 1
                    &&& is_leaderboard(events[0], readied)
                })
                &&& (pre.has_token(token) && pre.state is Lobby && all_ready(readied)
                    ==> {
                    &&& res == Ok::<ReadyOutcome, GameError>(ReadyOutcome::Started)
                    &&& post.state is Running
                    &&& post.current_turn == 0
                    &&& post.players@.len() == pre.players@.len()
                    &&& (forall|i: int| 0 <= i < post.players@.len() ==> post.players@[i]
                        == with_turn(readied[i], i == 0))
                    &&& events.len() == 2
                    &&& is_leaderboard(events[0], post.players@)
                    &&& is_turn(events[1], post.players@[0].name@)
                })
            }))
}

/// Everything a join (`add_new_player`) ensures of the session before
/// (`pre`) and after (`post`) the call, the result and the emitted events.
pub open spec fn join_post(pre: Memory, post: Memory, name: Seq<char>, res: Result<String, GameError>, events: Seq<Event>) -> bool {
    &&& (post.wf())
    &&& (crate::types::state_le(pre.state, post.state))
    &&& (post.id@ == pre.id@)
    &&& (post.cards@ == pre.cards@)
    &&& (post.state == pre.state)
    &&& (post.current_turn == pre.current_turn)
    &&& (!(pre.state is Lobby) <==> res == Err::<String, GameError>(
                GameError::AlreadyRunning,
            ))
    &&& (pre.state is Lobby && pre.has_name(name) <==> res == Err::<
                String, GameError>(GameError::DuplicateName))
    &&& (res is Err ==> post == pre && events.len() == 0)
    &&& (res matches Err(e) ==> (e == GameError::AlreadyRunning || e == GameError::DuplicateName
                || e == GameError::TokenCollision))
    &&& (res matches Ok(tok) ==> {
                &&& pre.state is Lobby
                &&& !pre.has_name(name)
                &&& !pre.has_token(tok@)
                &&& tok@.len() == 30
                &&& crate::rng::token_chars_ok(tok@)
                &&& post.players@.len() == pre.players@.len() + 1
                &&& (forall|i: int| 0 <= i < pre.players@.len() ==> post.players@[i] == pre.players@[i])
                &&& post.players@.last().token@ == tok@
                &&& post.players@.last().name@ == name
                &&& post.players@.last().points == 0
                &&& !post.players@.last().turn
                &&& !post.players@.last().ready
                &&& !post.players@.last().subscribed
                &&& events.len() == 1
                &&& is_leaderboard(events[0], post.players@)
            })
}

/// Everything `subscribe` ensures of the session before (`pre`) and
/// after (`post`) the call and the returned opening snapshot.
pub open spec fn subscribe_post(pre: Memory, post: Memory, token: Seq<char>, res: Result<InitResponse, GameError>) -> bool {
    &&& (post.wf())
    &&& (post.state == pre.state)
    &&& (post.id@ == pre.id@)
    &&& (post.cards@ == pre.cards@)
    &&& (post.current_turn == pre.current_turn)
    &&& (!pre.has_token(token) ==> res == Err::<InitResponse, GameError>(
                GameError::InvalidToken,
            ) && post == pre)
    &&& (pre.has_token(token) ==> ({
                let idx = pre.token_index(token);
                &&& post.players@ == pre.players@.update(
                    idx,
                    with_subscribed(pre.players@[idx]),
                )
                &&& res matches Ok(init) && init.game_state == post.state && init.ready
                    == post.players@[idx].ready && flipped_entries_ok(init.flipped@, post.cards@)
                    && hidden_entries_ok(init.hidden@, post.cards@) && rows_match(
                    init.players@,
                    post.players@,
                )
            }))
}

/// Everything `pick_card` ensures of the session before (`pre`) and
/// after (`post`) the call, the outcome and the emitted events.
pub open spec fn pick_post(pre: Memory, post: Memory, token: Seq<char>, card_id: int, res: Result<PickOutcome, GameError>, events: Seq<Event>) -> bool {
    &&& (post.wf())
    &&& (crate::types::state_le(pre.state, post.state))
    &&& (post.id@ == pre.id@)
    &&& (post.players@.len() == pre.players@.len())
    &&& (post.cards@.len() == pre.cards@.len())
    &&& (({
                let s = pre;
                let cid = card_id;
                let running = s.state is Running;
                let known = s.has_token(token);
                let idx = s.token_index(token);
                let my_turn = known && s.players@[idx].turn;
                let in_range = cid < s.cards@.len();
                let fresh = in_range && !s.cards@[cid].flipped && !s.cards@[cid].gone;
                let img = if in_range {
                    s.cards@[cid].img_path@
                } else {
                    Seq::<char>::empty()
                };
                &&& (!running ==> res == Err::<PickOutcome, GameError>(GameError::NotYetRunning)
                    && post == s && events.len() == 0)
                &&& (running && !known ==> res == Err::<PickOutcome, GameError>(
                    GameError::InvalidToken,
                ) && post == s && events.len() == 0)
                &&& (running && known && !s.players@[idx].turn ==> res == Err::<
                    PickOutcome,
                    GameError,
                >(GameError::NotYourTurn) && post == s && events.len() == 0)
                &&& (running && my_turn && !in_range ==> res == Err::<PickOutcome, GameError>(
                    GameError::InvalidCard,
                ) && post == s && events.len() == 0)
                &&& (running && my_turn && in_range && !fresh ==> res == Err::<
                    PickOutcome,
                    GameError,
                >(GameError::AlreadyFlipped) && post == s && events.len() == 0)
                &&& (running && my_turn && fresh ==> res is Ok && events.len() >= 1 && is_flip(
                    events[0],
                    cid,
                    img,
                ))
                &&& (running && my_turn && fresh && !s.has_pending() ==> {
                    &&& res == Ok::<PickOutcome, GameError>(PickOutcome::AwaitingSecondPick)
                    &&& post.cards@ == s.cards@.update(cid, flip_up(s.cards@[cid]))
                    &&& post.players@ == s.players@
                    &&& post.state is Running
                    &&& post.current_turn == s.current_turn
                    &&& events.len() == 1
                })
                &&& (running && my_turn && fresh && s.has_pending() ==> {
                    let pi = s.pending_index();
                    let pimg = s.cards@[pi].img_path@;
                    &&& (pimg == img ==> {
                        let resolved_cards = s.cards@.update(pi, resolve(s.cards@[pi])).update(
                            cid,
                            resolve(s.cards@[cid]),
                        );
                        let finished = all_gone(resolved_cards);
                        let lo = if pi < cid {
                            pi
                        } else {
                            cid
                        };
                        let hi = if pi < cid {
                            cid
                        } else {
                            pi
                        };
                        &&& res == Ok::<PickOutcome, GameError>(PickOutcome::Matched)
                        &&& post.cards@ == resolved_cards
                        &&& post.state == (if finished {
                            GameState::Finished
                        } else {
                            GameState::Running
                        })
                        &&& post.current_turn == s.current_turn
                        &&& (forall|i: int| 0 <= i < s.players@.len() ==> post.players@[i]
                            == match_update(s.players@[i], i == idx, finished))
                        &&& (finished ==> events.len() == 5 && is_hide(events[1], lo) && is_hide(
                            events[2],
                            hi,
                        ) && is_game_over(events[3], GameState::Finished) && is_leaderboard(
                            events[4],
                            post.players@,
                        ))
                        &&& (!finished ==> events.len() == 4 && is_hide(events[1], lo) && is_hide(
                            events[2],
                            hi,
                        ) && is_leaderboard(events[3], post.players@))
                    })
                    &&& (pimg != img ==> {
                        let n = s.players@.len() as int;
                        let new_idx = (s.current_turn + 1) % n;
                        &&& res == Ok::<PickOutcome, GameError>(PickOutcome::Mismatched)
                        &&& (forall|i: int| 0 <= i < s.cards@.len() ==> post.cards@[i]
                            == unflip(s.cards@[i]))
                        &&& post.state is Running
                        &&& post.current_turn == new_idx
                        &&& (forall|i: int| 0 <= i < s.players@.len() ==> post.players@[i]
                            == with_turn(s.players@[i], i == new_idx))
                        &&& events.len() == 3
                        &&& is_turn(events[1], s.players@[new_idx].name@)
                        &&& is_leaderboard(events[2], post.players@)
                    })
                })
            }))
}

/// Everything `snapshot_for` ensures of the session and the returned
/// reconciliation snapshot.
pub open spec fn snapshot_post(m: Memory, token: Seq<char>, res: Result<InitResponse, GameError>) -> bool {
    &&& (!m.has_token(token) ==> res == Err::<InitResponse, GameError>(
                GameError::InvalidToken,
            ))
    &&& (m.has_token(token) ==> (res matches Ok(init) && init.game_state == m.state
                && init.ready == m.players@[m.token_index(token)].ready
                && flipped_entries_ok(init.flipped@, m.cards@) && hidden_entries_ok(
                init.hidden@,
                m.cards@,
            ) && rows_match(init.players@, m.players@)))
}

/// Everything `player_state` ensures of the session and the returned
/// state reply.
pub open spec fn state_post(m: Memory, token: Seq<char>, res: Result<StateResponse, GameError>) -> bool {
    &&& (!m.has_token(token) ==> res == Err::<StateResponse, GameError>(
                GameError::InvalidToken,
            ))
    &&& (m.has_token(token) ==> (res matches Ok(st) && st.game_state == m.state
                && st.ready == m.players@[m.token_index(token)].ready))
}

/// One game session: the board, the insertion-ordered roster, the
/// lifecycle state and the index of the player whose turn it is.
pub struct Memory {
    pub id: String,
    pub players: Vec<Player>,
    pub state: GameState,
    pub cards: Vec<Card>,
    pub current_turn: usize,
}

impl Memory {
    /// The token is present in the roster.
    pub open spec fn has_token(self, t: Seq<char>) -> bool {
        exists|i: int| 0 <= i < self.players@.len() && (#[trigger] self.players@[i]).token@ == t
    }

    /// Index of the roster entry holding the token (unique under `wf`).
    pub open spec fn token_index(self, t: Seq<char>) -> int {
        choose|i: int| 0 <= i < self.players@.len() && (#[trigger] self.players@[i]).token@ == t
    }

    /// The display name is already held by a player.
    pub open spec fn has_name(self, n: Seq<char>) -> bool {
        exists|i: int| 0 <= i < self.players@.len() && (#[trigger] self.players@[i]).name@ == n
    }

    /// Some card is face up, awaiting the second pick of the round.
    pub open spec fn has_pending(self) -> bool {
        exists|i: int| 0 <= i < self.cards@.len() && (#[trigger] self.cards@[i]).flipped
    }

    /// Slot of the pending first pick (unique under `wf`).
    pub open spec fn pending_index(self) -> int {
        choose|i: int| 0 <= i < self.cards@.len() && (#[trigger] self.cards@[i]).flipped
    }

    /// Session invariant, established by the constructors and preserved
    /// by every operation:
    /// - while running, the turn flags single out exactly the player at
    ///   `current_turn`; otherwise no turn flag is set;
    /// - once the lobby has closed, every player is ready;
    /// - at most one card is face up, and a resolved card never is;
    /// - tokens and names are pairwise distinct;
    /// - twice the total score equals the number of resolved cards;
    /// - a lobby board is untouched, a finished board fully resolved.
    pub open spec fn wf(self) -> bool {
        &&& (self.state is Running ==> self.current_turn < self.players@.len())
        &&& (self.state is Running ==> forall|i: int|
            0 <= i < self.players@.len() ==> ((#[trigger] self.players@[i]).turn <==> i
                == self.current_turn))
        &&& (!(self.state is Running) ==> forall|i: int|
            0 <= i < self.players@.len() ==> !(#[trigger] self.players@[i]).turn)
        &&& (!(self.state is Lobby) ==> all_ready(self.players@))
        &&& (forall|i: int, j: int|
            0 <= i < self.cards@.len() && 0 <= j < self.cards@.len() && (
            #[trigger] self.cards@[i]).flipped && (#[trigger] self.cards@[j]).flipped ==> i == j)
        &&& (forall|i: int|
            0 <= i < self.cards@.len() ==> ((#[trigger] self.cards@[i]).gone
                ==> !self.cards@[i].flipped))
        &&& (forall|i: int, j: int|
            0 <= i < j < self.players@.len() ==> (#[trigger] self.players@[i]).token@ != (
            #[trigger] self.players@[j]).token@)
        &&& (forall|i: int, j: int|
            0 <= i < j < self.players@.len() ==> (#[trigger] self.players@[i]).name@ != (
            #[trigger] self.players@[j]).name@)
        &&& 2 * crate::counting::sum_points(self.players@) == count_gone(self.cards@)
        &&& (self.state is Lobby ==> forall|i: int|
            0 <= i < self.cards@.len() ==> !(#[trigger] self.cards@[i]).flipped
                && !self.cards@[i].gone)
        &&& (self.state is Finished ==> all_gone(self.cards@))
    }

    /// A fresh lobby session over the given board, exactly as supplied.
    /// Used where the board is fixed in advance; `new` shuffles one up
    /// from a list of images.
    pub fn with_cards(id: String, cards: Vec<Card>) -> (m: Memory)
        requires
            forall|i: int| 0 <= i < cards@.len() ==> !(#[trigger] cards@[i]).flipped
                && !cards@[i].gone,
        ensures
            m.wf(),
            m.id@ == id@,
            m.state is Lobby,
            m.players@.len() == 0,
            m.cards@ == cards@,
            m.current_turn == 0,
    {
        proof {
            lemma_count_gone_zero(cards@);
        }
        Memory { id, players: Vec::new(), state: GameState::Lobby, cards, current_turn: 0 }
    }

    /// A fresh lobby session with a newly shuffled board holding every
    /// given image on exactly two slots.
    pub fn new(id: String, images: Vec<String>) -> (m: Memory)
        requires
            forall|i: int, j: int| 0 <= i < j < images@.len() ==> images@[i]@ != images@[j]@,
        ensures
            m.wf(),
            m.id@ == id@,
            m.state is Lobby,
            m.players@.len() == 0,
            m.current_turn == 0,
            m.cards@.len() == 2 * images@.len(),
            forall|j: int| 0 <= j < images@.len() ==> count_img(m.cards@, (#[trigger] images@[j])@)
                == 2,
            forall|i: int| 0 <= i < m.cards@.len() ==> exists|j: int|
                0 <= j < images@.len() && (#[trigger] m.cards@[i]).img_path@ == images@[j]@,
            forall|i: int| 0 <= i < m.cards@.len() ==> !(#[trigger] m.cards@[i]).flipped
                && !m.cards@[i].gone,
    {
        let n = images.len();
        let mut cards: Vec<Card> = Vec::new();
        let mut i: usize = 0;
        while i < n
            invariant
                n == images@.len(),
                i <= n,
                forall|a: int, b: int| 0 <= a < b < images@.len() ==> images@[a]@ != images@[b]@,
                cards@.len() == 2 * i,
                forall|j: int| 0 <= j < i ==> count_img(cards@, (#[trigger] images@[j])@) == 2,
                forall|j: int| i <= j < n ==> count_img(cards@, (#[trigger] images@[j])@) == 0,
                forall|k: int| 0 <= k < cards@.len() ==> exists|j: int|
                    0 <= j < i && (#[trigger] cards@[k]).img_path@ == images@[j]@,
                forall|k: int| 0 <= k < cards@.len() ==> !(#[trigger] cards@[k]).flipped
                    && !cards@[k].gone,
            decreases n - i,
        {
            let c1 = Card::new(images[i].clone());
            let c2 = Card::new(images[i].clone());
            proof {
                lemma_count_img_push(cards@, c1);
                lemma_count_img_push(cards@.push(c1), c2);
            }
            cards.push(c1);
            cards.push(c2);
            i = i + 1;
        }
        shuffle_cards(&mut cards);
        proof {
            lemma_count_gone_zero(cards@);
        }
        Memory { id, players: Vec::new(), state: GameState::Lobby, cards, current_turn: 0 }
    }

    /// Full reconciliation view: lifecycle state, the caller's ready
    /// flag, the face-up slots with their images, the resolved slots,
    /// and the rendered roster.
    pub fn get_state(&self, ready: bool) -> (r: InitResponse)
        ensures
            r.game_state == self.state,
            r.ready == ready,
            flipped_entries_ok(r.flipped@, self.cards@),
            hidden_entries_ok(r.hidden@, self.cards@),
            rows_match(r.players@, self.players@),
    {
        let mut flipped: Vec<(usize, String)> = Vec::new();
        let mut hidden: Vec<usize> = Vec::new();
        let mut i: usize = 0;
        while i < self.cards.len()
            invariant
                i <= self.cards@.len(),
                forall|k: int| 0 <= k < flipped@.len() ==> 0 <= (#[trigger] flipped@[k]).0 < i
                    && self.cards@[flipped@[k].0 as int].flipped && flipped@[k].1@
                    == self.cards@[flipped@[k].0 as int].img_path@,
                forall|j: int| 0 <= j < i && (#[trigger] self.cards@[j]).flipped ==> exists|k: int|
                    0 <= k < flipped@.len() && (#[trigger] flipped@[k]).0 == j,
                forall|k1: int, k2: int| 0 <= k1 < k2 < flipped@.len() ==> (
                #[trigger] flipped@[k1]).0 < (#[trigger] flipped@[k2]).0,
                forall|k: int| 0 <= k < hidden@.len() ==> 0 <= (#[trigger] hidden@[k]) < i
                    && self.cards@[hidden@[k] as int].gone,
                forall|j: int| 0 <= j < i && (#[trigger] self.cards@[j]).gone ==> exists|k: int|
                    0 <= k < hidden@.len() && (#[trigger] hidden@[k]) == j,
                forall|k1: int, k2: int| 0 <= k1 < k2 < hidden@.len() ==> (#[trigger] hidden@[k1])
                    < (#[trigger] hidden@[k2]),
            decreases self.cards@.len() - i,
        {
            let ghost flipped0 = flipped@;
            if self.cards[i].flipped {
                flipped.push((i, self.cards[i].img_path.clone()));
            }
            proof {
                assert forall|j: int|
                    0 <= j < i + 1 && (#[trigger] self.cards@[j]).flipped implies exists|k: int|
                    0 <= k < flipped@.len() && (#[trigger] flipped@[k]).0 == j by {
                    if j < i {
                        let k0 = choose|k: int|
                            0 <= k < flipped0.len() && (#[trigger] flipped0[k]).0 == j;
                        assert(flipped@[k0].0 == j);
                    } else {
                        assert(flipped@[flipped@.len() - 1].0 == j);
                    }
                }
            }
            let ghost hidden0 = hidden@;
            if self.cards[i].gone {
                hidden.push(i);
            }
            proof {
                assert forall|j: int|
                    0 <= j < i + 1 && (#[trigger] self.cards@[j]).gone implies exists|k: int|
                    0 <= k < hidden@.len() && (#[trigger] hidden@[k]) == j by {
                    if j < i {
                        let k0 = choose|k: int|
                            0 <= k < hidden0.len() && (#[trigger] hidden0[k]) == j;
                        assert(hidden@[k0] == j);
                    } else {
                        assert(hidden@[hidden@.len() - 1] == j);
                    }
                }
            }
            i = i + 1;
        }
        let rows = LeaderboardResponse::from(&self.players);
        InitResponse::from(self.state, ready, flipped, hidden, rows.players)
    }
}

impl Memory {
    /// Any roster index holding the token is the unique one `token_index`
    /// names, since tokens are pairwise distinct under `wf`.
    proof fn lemma_token_index_is(self, t: Seq<char>, idx: int)
        requires
            self.wf(),
            0 <= idx < self.players@.len(),
            self.players@[idx].token@ == t,
        ensures
            self.has_token(t),
            self.token_index(t) == idx,
    {
        assert(self.has_token(t));
        let ti = self.token_index(t);
        if ti < idx {
            assert(self.players@[ti].token@ != self.players@[idx].token@);
        } else if ti > idx {
            assert(self.players@[idx].token@ != self.players@[ti].token@);
        }
    }

    /// Any face-up slot is the unique one `pending_index` names, since
    /// at most one card is face up under `wf`.
    proof fn lemma_pending_index_is(self, idx: int)
        requires
            self.wf(),
            0 <= idx < self.cards@.len(),
            self.cards@[idx].flipped,
        ensures
            self.has_pending(),
            self.pending_index() == idx,
    {
        assert(self.has_pending());
        let pp = self.pending_index();
        assert(self.cards@[pp].flipped);
    }

    /// Closes the lobby: the session starts running and the turn goes to
    /// the first player who joined.
    pub fn start(&mut self)
        requires
            old(self).wf(),
            old(self).state is Lobby,
            all_ready(old(self).players@),
            old(self).players@.len() > 0,
        ensures
            final(self).wf(),
            final(self).state is Running,
            final(self).current_turn == 0,
            final(self).players@.len() == old(self).players@.len(),
            forall|i: int| 0 <= i < final(self).players@.len() ==> final(self).players@[i] == with_turn(
                old(self).players@[i], i == 0),
            final(self).cards@ == old(self).cards@,
            final(self).id@ == old(self).id@,
    {
        self.state = GameState::Running;
        self.current_turn = 0;
        self.players[0].turn = true;
        proof {
            crate::counting::lemma_sum_points_update(
                old(self).players@,
                0,
                with_turn(old(self).players@[0], true),
            );
            assert forall|i: int| 0 <= i < self.players@.len() implies self.players@[i]
                == with_turn(old(self).players@[i], i == 0) by {
                if i != 0 {
                    assert(!old(self).players@[i].turn);
                }
            }
        }
    }

    /// Marks the player as ready. Returns `Pending` while someone is
    /// still missing, `Started` once everyone is ready (the session then
    /// starts), and is a no-op once the lobby has already closed.
    pub fn mark_ready(&mut self, token: &String) -> (r: (Result<ReadyOutcome, GameError>, Vec<
        Event,
    >))
        requires
            old(self).wf(),
        ensures
            ready_post(*old(self), *final(self), token@, r.0, r.1@),
    {
        let idx = match find_player(&self.players, token) {
            Some(i) => i,
            None => {
                return (Err(GameError::InvalidToken), Vec::new());
            },
        };
        proof {
            old(self).lemma_token_index_is(token@, idx as int);
        }
        if !(self.state == GameState::Lobby) {
            return (Ok(ReadyOutcome::Started), Vec::new());
        }
        self.players[idx].ready = true;
        proof {
            crate::counting::lemma_sum_points_update(
                old(self).players@,
                idx as int,
                with_ready(old(self).players@[idx as int]),
            );
        }
        let mut events: Vec<Event> = Vec::new();
        if !check_all_ready(&self.players) {
            events.push(leaderboard_event(&self.players));
            return (Ok(ReadyOutcome::Pending), events);
        }
        self.start();
        events.push(leaderboard_event(&self.players));
        events.push(turn_event(&self.players[0]));
        (Ok(ReadyOutcome::Started), events)
    }

    /// Adds a player under a caller-supplied fresh token. Fails once the
    /// lobby has closed, on a duplicate display name, and on a token
    /// already in the roster.
    pub fn join_with_token(&mut self, name: String, token: String) -> (r: (Result<
        (),
        GameError,
    >, Vec<Event>))
        requires
            old(self).wf(),
        ensures
            final(self).wf(),
            crate::types::state_le(old(self).state, final(self).state),
            final(self).id@ == old(self).id@,
            final(self).cards@ == old(self).cards@,
            final(self).state == old(self).state,
            final(self).current_turn == old(self).current_turn,
            !(old(self).state is Lobby) ==> r.0 == Err::<(), GameError>(GameError::AlreadyRunning)
                && *final(self) == *old(self) && r.1@.len() == 0,
            old(self).state is Lobby && old(self).has_name(name@) ==> r.0 == Err::<(), GameError>(
                GameError::DuplicateName,
            ) && *final(self) == *old(self) && r.1@.len() == 0,
            old(self).state is Lobby && !old(self).has_name(name@) && old(self).has_token(token@)
                ==> r.0 == Err::<(), GameError>(GameError::TokenCollision) && *final(self) == *old(self)
                && r.1@.len() == 0,
            old(self).state is Lobby && !old(self).has_name(name@) && !old(self).has_token(token@)
                ==> {
                &&& r.0 == Ok::<(), GameError>(())
                &&& final(self).players@.len() == old(self).players@.len() + 1
                &&& (forall|i: int| 0 <= i < old(self).players@.len() ==> final(self).players@[i] == old(
                    self,
                ).players@[i])
                &&& final(self).players@.last().token@ == token@
                &&& final(self).players@.last().name@ == name@
                &&& final(self).players@.last().points == 0
                &&& !final(self).players@.last().turn
                &&& !final(self).players@.last().ready
                &&& !final(self).players@.last().subscribed
                &&& r.1@.len() == 1
                &&& is_leaderboard(r.1@[0], final(self).players@)
            },
    {
        if !(self.state == GameState::Lobby) {
            return (Err(GameError::AlreadyRunning), Vec::new());
        }
        if name_taken(&self.players, &name) {
            return (Err(GameError::DuplicateName), Vec::new());
        }
        match find_player(&self.players, &token) {
            Some(_) => {
                return (Err(GameError::TokenCollision), Vec::new());
            },
            None => {},
        }
        let p = Player::new(token, name);
        proof {
            crate::counting::lemma_sum_points_push(self.players@, p);
        }
        self.players.push(p);
        let mut events: Vec<Event> = Vec::new();
        events.push(leaderboard_event(&self.players));
        (Ok(()), events)
    }

    /// Adds a player under a freshly drawn random token and returns the
    /// token. In the vanishingly unlikely event that the drawn token is
    /// already in the roster, the join takes no effect and reports
    /// `TokenCollision`.
    pub fn add_new_player(&mut self, name: String) -> (r: (Result<String, GameError>, Vec<Event>))
        requires
            old(self).wf(),
        ensures
            join_post(*old(self), *final(self), name@, r.0, r.1@),
    {
        let token = crate::rng::random_token();
        let token_copy = token.clone();
        let (res, events) = self.join_with_token(name, token);
        match res {
            Ok(_) => (Ok(token_copy), events),
            Err(e) => (Err(e), events),
        }
    }

    /// Attaches a live-update subscription to the player and returns the
    /// snapshot that opens the new stream.
    pub fn subscribe(&mut self, token: &String) -> (r: Result<InitResponse, GameError>)
        requires
            old(self).wf(),
        ensures
            subscribe_post(*old(self), *final(self), token@, r),
    {
        let idx = match find_player(&self.players, token) {
            Some(i) => i,
            None => {
                return Err(GameError::InvalidToken);
            },
        };
        proof {
            old(self).lemma_token_index_is(token@, idx as int);
        }
        self.players[idx].subscribed = true;
        proof {
            crate::counting::lemma_sum_points_update(
                old(self).players@,
                idx as int,
                with_subscribed(old(self).players@[idx as int]),
            );
        }
        let ready = self.players[idx].ready;
        Ok(self.get_state(ready))
    }

    /// Processes one card pick: the first pick of a round arms the slot,
    /// the second resolves the round as a match (both slots leave play,
    /// the acting player scores and keeps the turn; the session finishes
    /// once the board is empty) or a mismatch (the round's cards turn
    /// face down again and the turn passes to the next player in join
    /// order). Returns the events to broadcast, in order.
    pub fn pick_card(&mut self, token: &String, card_id: usize) -> (r: (Result<
        PickOutcome,
        GameError,
    >, Vec<Event>))
        requires
            old(self).wf(),
        ensures
            pick_post(*old(self), *final(self), token@, card_id as int, r.0, r.1@),
    {
        if !(self.state == GameState::Running) {
            return (Err(GameError::NotYetRunning), Vec::new());
        }
        let idx = match find_player(&self.players, token) {
            Some(i) => i,
            None => {
                return (Err(GameError::InvalidToken), Vec::new());
            },
        };
        proof {
            old(self).lemma_token_index_is(token@, idx as int);
        }
        if !self.players[idx].turn {
            return (Err(GameError::NotYourTurn), Vec::new());
        }
        if card_id >= self.cards.len() {
            return (Err(GameError::InvalidCard), Vec::new());
        }
        if self.cards[card_id].flipped || self.cards[card_id].gone {
            return (Err(GameError::AlreadyFlipped), Vec::new());
        }
        let pending = find_flipped(&self.cards);
        let img = self.cards[card_id].img_path.clone();
        self.cards[card_id].flipped = true;
        let mut events: Vec<Event> = Vec::new();
        events.push(flip_event(card_id, img.clone()));
        match pending {
            None => {
                proof {
                    crate::counting::lemma_count_gone_congruence(old(self).cards@, self.cards@);
                }
                (Ok(PickOutcome::AwaitingSecondPick), events)
            },
            Some(pi) => {
                proof {
                    old(self).lemma_pending_index_is(pi as int);
                }
                let pimg = self.cards[pi].img_path.clone();
                if pimg == img {
                    proof {
                        crate::counting::lemma_sum_points_le(old(self).players@, idx as int);
                        crate::counting::lemma_count_gone_bounds(old(self).cards@);
                        crate::counting::lemma_count_gone_congruence(
                            old(self).cards@,
                            self.cards@,
                        );
                    }
                    let pts = self.players[idx].points;
                    self.players[idx].points = pts + 1;
                    proof {
                        crate::counting::lemma_sum_points_update(
                            old(self).players@,
                            idx as int,
                            self.players@[idx as int],
                        );
                    }
                    let ghost mid_cards = self.cards@;
                    let im1 = self.cards[pi].img_path.clone();
                    self.cards[pi] = Card { img_path: im1, flipped: false, gone: true };
                    proof {
                        crate::counting::lemma_count_gone_update(
                            mid_cards,
                            pi as int,
                            self.cards@[pi as int],
                        );
                    }
                    let ghost mid_cards2 = self.cards@;
                    let im2 = self.cards[card_id].img_path.clone();
                    self.cards[card_id] = Card { img_path: im2, flipped: false, gone: true };
                    proof {
                        crate::counting::lemma_count_gone_update(
                            mid_cards2,
                            card_id as int,
                            self.cards@[card_id as int],
                        );
                        assert(self.cards@ =~= old(self).cards@.update(
                            old(self).pending_index(),
                            resolve(old(self).cards@[old(self).pending_index()]),
                        ).update(card_id as int, resolve(old(self).cards@[card_id as int])));
                    }
                    let lo = if pi < card_id {
                        pi
                    } else {
                        card_id
                    };
                    let hi = if pi < card_id {
                        card_id
                    } else {
                        pi
                    };
                    events.push(hide_event(lo));
                    events.push(hide_event(hi));
                    let finished = check_all_gone(&self.cards);
                    if finished {
                        self.state = GameState::Finished;
                        let ghost mid_players = self.players@;
                        clear_turns(&mut self.players);
                        proof {
                            crate::counting::lemma_sum_points_congruence(
                                mid_players,
                                self.players@,
                            );
                        }
                        events.push(game_over_event(GameState::Finished));
                    }
                    events.push(leaderboard_event(&self.players));
                    (Ok(PickOutcome::Matched), events)
                } else {
                    self.players[idx].turn = false;
                    let ghost mid_cards = self.cards@;
                    unflip_all(&mut self.cards);
                    proof {
                        crate::counting::lemma_count_gone_congruence(old(self).cards@, self.cards@);
                        crate::counting::lemma_sum_points_update(
                            old(self).players@,
                            idx as int,
                            self.players@[idx as int],
                        );
                    }
                    let n = self.players.len();
                    self.current_turn = (self.current_turn + 1) % n;
                    let ghost mid_players = self.players@;
                    self.players[self.current_turn].turn = true;
                    proof {
                        crate::counting::lemma_sum_points_update(
                            mid_players,
                            self.current_turn as int,
                            self.players@[self.current_turn as int],
                        );
                    }
                    events.push(turn_event(&self.players[self.current_turn]));
                    events.push(leaderboard_event(&self.players));
                    (Ok(PickOutcome::Mismatched), events)
                }
            },
        }
    }

    /// Whether the token is present in the roster.
    pub fn knows_token(&self, token: &String) -> (r: bool)
        ensures
            r == self.has_token(token@),
    {
        match find_player(&self.players, token) {
            Some(_) => true,
            None => false,
        }
    }

    /// Reconciliation snapshot for the player holding the token.
    pub fn snapshot_for(&self, token: &String) -> (r: Result<InitResponse, GameError>)
        requires
            self.wf(),
        ensures
            snapshot_post(*self, token@, r),
    {
        let idx = match find_player(&self.players, token) {
            Some(i) => i,
            None => {
                return Err(GameError::InvalidToken);
            },
        };
        proof {
            self.lemma_token_index_is(token@, idx as int);
        }
        let ready = self.players[idx].ready;
        Ok(self.get_state(ready))
    }

    /// Lifecycle state together with the ready flag of the player
    /// holding the token.
    pub fn player_state(&self, token: &String) -> (r: Result<StateResponse, GameError>)
        requires
            self.wf(),
        ensures
            state_post(*self, token@, r),
    {
        let idx = match find_player(&self.players, token) {
            Some(i) => i,
            None => {
                return Err(GameError::InvalidToken);
            },
        };
        proof {
            self.lemma_token_index_is(token@, idx as int);
        }
        Ok(StateResponse { game_state: self.state, ready: self.players[idx].ready })
    }
}

/// Whether the images are pairwise distinct, as `Memory::new` and
/// `MemoryStore::create` require of a board's image list.
pub fn images_distinct(images: &Vec<String>) -> (r: bool)
    ensures
        r == (forall|i: int, j: int| 0 <= i < j < images@.len() ==> images@[i]@ != images@[j]@),
{
    let mut i: usize = 0;
    while i < images.len()
        invariant
            i <= images@.len(),
            forall|a: int, b: int| 0 <= a < b < images@.len() && a < i ==> images@[a]@
                != images@[b]@,
        decreases images@.len() - i,
    {
        let mut j: usize = i + 1;
        while j < images.len()
            invariant
                i < images@.len(),
                i < j <= images@.len(),
                forall|a: int, b: int| 0 <= a < b < images@.len() && a < i ==> images@[a]@
                    != images@[b]@,
                forall|b: int| i < b < j ==> images@[i as int]@ != images@[b]@,
            decreases images@.len() - j,
        {
            if images[i] == images[j] {
                assert(images@[i as int]@ == images@[j as int]@);
                return false;
            }
            j = j + 1;
        }
        i = i + 1;
    }
    true
}

/// Clears every player's turn flag.
fn clear_turns(players: &mut Vec<Player>)
    ensures
        final(players)@.len() == old(players)@.len(),
        forall|i: int| 0 <= i < old(players)@.len() ==> final(players)@[i] == with_turn(
            old(players)@[i], false),
{
    let mut i: usize = 0;
    while i < players.len()
        invariant
            i <= players@.len(),
            players@.len() == old(players)@.len(),
            forall|j: int| 0 <= j < i ==> players@[j] == with_turn(old(players)@[j], false),
            forall|j: int| i <= j < players@.len() ==> players@[j] == old(players)@[j],
        decreases players@.len() - i,
    {
        players[i].turn = false;
        i = i + 1;
    }
}

/// Turns every card face down again, leaving resolved flags alone.
fn unflip_all(cards: &mut Vec<Card>)
    ensures
        final(cards)@.len() == old(cards)@.len(),
        forall|i: int| 0 <= i < old(cards)@.len() ==> final(cards)@[i] == unflip(old(cards)@[i]),
{
    let mut i: usize = 0;
    while i < cards.len()
        invariant
            i <= cards@.len(),
            cards@.len() == old(cards)@.len(),
            forall|j: int| 0 <= j < i ==> cards@[j] == unflip(old(cards)@[j]),
            forall|j: int| i <= j < cards@.len() ==> cards@[j] == old(cards)@[j],
        decreases cards@.len() - i,
    {
        cards[i].flipped = false;
        i = i + 1;
    }
}

/// Flip event for the given slot and image.
fn flip_event(card_id: usize, img_path: String) -> (e: Event)
    ensures
        is_flip(e, card_id as int, img_path@),
{
    Event::Flip(FlipResponse { card_id, img_path })
}

/// Hide event for the given resolved slot.
fn hide_event(card_id: usize) -> (e: Event)
    ensures
        is_hide(e, card_id as int),
{
    Event::Hide(HideResponse { card_id })
}

/// Game-over event announcing the final lifecycle state.
fn game_over_event(game_state: GameState) -> (e: Event)
    ensures
        is_game_over(e, game_state),
{
    Event::GameOver(GameOverResponse { game_state })
}

/// Leaderboard event rendering the given roster.
fn leaderboard_event(players: &Vec<Player>) -> (e: Event)
    ensures
        is_leaderboard(e, players@),
{
    Event::Leaderboard(LeaderboardResponse::from(players))
}

/// Turn event handing the turn to the named player.
fn turn_event(p: &Player) -> (e: Event)
    ensures
        is_turn(e, p.name@),
{
    Event::Turn(TurnResponse { turn: true, name: p.name.clone() })
}

/// First roster index holding the token, if the token is known.
fn find_player(players: &Vec<Player>, token: &String) -> (r: Option<usize>)
    ensures
        match r {
            Some(i) => i < players@.len() && players@[i as int].token@ == token@,
            None => forall|i: int| 0 <= i < players@.len() ==> (#[trigger] players@[i]).token@
                != token@,
        },
{
    let mut i: usize = 0;
    while i < players.len()
        invariant
            i <= players@.len(),
            forall|j: int| 0 <= j < i ==> (#[trigger] players@[j]).token@ != token@,
        decreases players@.len() - i,
    {
        if players[i].token == *token {
            return Some(i);
        }
        i = i + 1;
    }
    None
}

/// Whether some player already holds the display name.
fn name_taken(players: &Vec<Player>, name: &String) -> (r: bool)
    ensures
        r == exists|i: int| 0 <= i < players@.len() && (#[trigger] players@[i]).name@ == name@,
{
    let mut i: usize = 0;
    while i < players.len()
        invariant
            i <= players@.len(),
            forall|j: int| 0 <= j < i ==> (#[trigger] players@[j]).name@ != name@,
        decreases players@.len() - i,
    {
        if players[i].name == *name {
            return true;
        }
        i = i + 1;
    }
    false
}

/// First face-up slot, if any card is face up.
fn find_flipped(cards: &Vec<Card>) -> (r: Option<usize>)
    ensures
        match r {
            Some(i) => i < cards@.len() && cards@[i as int].flipped,
            None => forall|i: int| 0 <= i < cards@.len() ==> !(#[trigger] cards@[i]).flipped,
        },
{
    let mut i: usize = 0;
    while i < cards.len()
        invariant
            i <= cards@.len(),
            forall|j: int| 0 <= j < i ==> !(#[trigger] cards@[j]).flipped,
        decreases cards@.len() - i,
    {
        if cards[i].flipped {
            return Some(i);
        }
        i = i + 1;
    }
    None
}

/// Whether every player is ready.
fn check_all_ready(players: &Vec<Player>) -> (r: bool)
    ensures
        r == all_ready(players@),
{
    let mut i: usize = 0;
    while i < players.len()
        invariant
            i <= players@.len(),
            forall|j: int| 0 <= j < i ==> (#[trigger] players@[j]).ready,
        decreases players@.len() - i,
    {
        if !players[i].ready {
            return false;
        }
        i = i + 1;
    }
    true
}

/// Whether every card is resolved.
fn check_all_gone(cards: &Vec<Card>) -> (r: bool)
    ensures
        r == all_gone(cards@),
{
    let mut i: usize = 0;
    while i < cards.len()
        invariant
            i <= cards@.len(),
            forall|j: int| 0 <= j < i ==> (#[trigger] cards@[j]).gone,
        decreases cards@.len() - i,
    {
        if !cards[i].gone {
            return false;
        }
        i = i + 1;
    }
    true
}

} // verus!
