use vstd::prelude::*;

use crate::counting::count_gone;
use crate::counting::lemma_count_gone_full;
use crate::counting::sum_points;
use crate::memory::all_gone;
use crate::memory::match_update;
use crate::memory::pick_post;
use crate::memory::resolve;
use crate::memory::with_turn;
use crate::memory::Memory;
use crate::types::Event;
use crate::types::GameError;
use crate::types::PickOutcome;

verus! {

/// Turn exclusivity: in any well-formed running session exactly one
/// player holds the turn flag, namely the player at `current_turn`.
pub proof fn lemma_turn_exclusive(m: Memory)
    requires
        m.wf(),
        m.state is Running,
    ensures
        0 <= m.current_turn < m.players@.len(),
        m.players@[m.current_turn as int].turn,
        forall|i: int, j: int|
            0 <= i < m.players@.len() && 0 <= j < m.players@.len() && (
            #[trigger] m.players@[i]).turn && (#[trigger] m.players@[j]).turn ==> i == j,
{
}

/// Pending-pick invariant: in any well-formed session at most one
/// non-resolved card is face up, so a pick finds at most one pending
/// first pick to complete.
pub proof fn lemma_at_most_one_pending(m: Memory)
    requires
        m.wf(),
    ensures
        forall|i: int, j: int|
            0 <= i < m.cards@.len() && 0 <= j < m.cards@.len() && (#[trigger] m.cards@[i]).flipped
                && !m.cards@[i].gone && (#[trigger] m.cards@[j]).flipped && !m.cards@[j].gone ==> i
                == j,
{
}

/// The turn index after `k` single steps of round-robin rotation over
/// `n` players, starting from `start`.
pub open spec fn rotate(start: int, n: int, k: nat) -> int
    decreases k,
{
    if k == 0 {
        start
    } else {
        (rotate(start, n, (k - 1) as nat) + 1) % n
    }
}

/// Each single rotation step is exactly the advance a mismatch makes:
/// `(previous index + 1) % player_count`. `k` such steps from `start`
/// land on `(start + k) % n`.
pub proof fn lemma_rotate_formula(start: int, n: int, k: nat)
    requires
        0 <= start < n,
    ensures
        rotate(start, n, k) == (start + k) % n,
    decreases k,
{
    if k == 0 {
        vstd::arithmetic::div_mod::lemma_small_mod(start as nat, n as nat);
    } else {
        lemma_rotate_formula(start, n, (k - 1) as nat);
        vstd::arithmetic::div_mod::lemma_add_mod_noop_right(1, start + k - 1, n);
    }
}

/// A mismatch advances the turn by exactly one rotation step:
/// the new active index is `(previous index + 1) % player_count`.
pub proof fn lemma_mismatch_advances_one_step(
    pre: Memory,
    post: Memory,
    token: Seq<char>,
    card_id: int,
    res: Result<PickOutcome, GameError>,
    events: Seq<Event>,
)
    requires
        pre.wf(),
        pick_post(pre, post, token, card_id, res, events),
        res == Ok::<PickOutcome, GameError>(PickOutcome::Mismatched),
    ensures
        post.current_turn == rotate(pre.current_turn as int, pre.players@.len() as int, 1),
{
    let s = pre;
    let cid = card_id;
    let n = s.players@.len() as int;
    assert(rotate(s.current_turn as int, n, 0) == s.current_turn as int);
    let running = s.state is Running;
    let known = s.has_token(token);
    let idx = s.token_index(token);
    let my_turn = known && s.players@[idx].turn;
    let in_range = cid < s.cards@.len();
    let fresh = in_range && !s.cards@[cid].flipped && !s.cards@[cid].gone;
    if running && my_turn && fresh && s.has_pending() {
        let pi = s.pending_index();
        if s.cards@[pi].img_path@ == s.cards@[cid].img_path@ {
            assert(res == Ok::<PickOutcome, GameError>(PickOutcome::Matched));
        } else {
            assert(post.current_turn == (s.current_turn + 1) % n);
        }
    } else if running && my_turn && fresh {
        assert(res == Ok::<PickOutcome, GameError>(PickOutcome::AwaitingSecondPick));
    } else {
        assert(res is Err);
    }
}

/// Round-robin fairness: after `n` consecutive mismatches in an
/// `n`-player session with no match in between, the turn returns to
/// the player it started with.
pub proof fn lemma_round_robin_cycle(start: int, n: int)
    requires
        0 <= start < n,
    ensures
        rotate(start, n, n as nat) == start,
{
    lemma_rotate_formula(start, n, n as nat);
    vstd::arithmetic::div_mod::lemma_mod_add_multiples_vanish(start, n);
    vstd::arithmetic::div_mod::lemma_small_mod(start as nat, n as nat);
}

/// Match idempotence on score: a pick never decrements any score; a
/// matched pair increments the acting player's score by exactly one
/// and leaves every other score unchanged.
pub proof fn lemma_scores_monotone(
    pre: Memory,
    post: Memory,
    token: Seq<char>,
    card_id: int,
    res: Result<PickOutcome, GameError>,
    events: Seq<Event>,
)
    requires
        pre.wf(),
        pick_post(pre, post, token, card_id, res, events),
    ensures
        post.players@.len() == pre.players@.len(),
        forall|i: int| 0 <= i < pre.players@.len() ==> (#[trigger] post.players@[i]).points
            >= pre.players@[i].points,
        res == Ok::<PickOutcome, GameError>(PickOutcome::Matched) ==> {
            let idx = pre.token_index(token);
            &&& post.players@[idx].points == pre.players@[idx].points + 1
            &&& forall|i: int| 0 <= i < pre.players@.len() && i != idx ==> (
            #[trigger] post.players@[i]).points == pre.players@[i].points
        },
        res != Ok::<PickOutcome, GameError>(PickOutcome::Matched) ==> forall|i: int|
            0 <= i < pre.players@.len() ==> (#[trigger] post.players@[i]).points
                == pre.players@[i].points,
{
    let s = pre;
    let cid = card_id;
    let running = s.state is Running;
    let known = s.has_token(token);
    let idx = s.token_index(token);
    let my_turn = known && s.players@[idx].turn;
    let in_range = cid < s.cards@.len();
    let fresh = in_range && !s.cards@[cid].flipped && !s.cards@[cid].gone;
    if running && my_turn && fresh {
        if s.has_pending() {
            let pi = s.pending_index();
            let pimg = s.cards@[pi].img_path@;
            let img = s.cards@[cid].img_path@;
            if pimg == img {
                let resolved_cards = s.cards@.update(pi, resolve(s.cards@[pi])).update(
                    cid,
                    resolve(s.cards@[cid]),
                );
                let finished = all_gone(resolved_cards);
                assert(res == Ok::<PickOutcome, GameError>(PickOutcome::Matched));
                crate::counting::lemma_count_gone_bounds(s.cards@);
                vstd::std_specs::vec::axiom_spec_len(&pre.cards);
                assert forall|i: int| 0 <= i < pre.players@.len() implies (
                #[trigger] post.players@[i]).points >= pre.players@[i].points by {
                    assert(post.players@[i] == match_update(s.players@[i], i == idx, finished));
                    crate::counting::lemma_sum_points_le(s.players@, i);
                }
                assert(post.players@[idx].points == pre.players@[idx].points + 1) by {
                    assert(post.players@[idx] == match_update(s.players@[idx], true, finished));
                    crate::counting::lemma_sum_points_le(s.players@, idx);
                }
            } else {
                assert(res == Ok::<PickOutcome, GameError>(PickOutcome::Mismatched));
                let n = s.players@.len() as int;
                let new_idx = (s.current_turn + 1) % n;
                assert forall|i: int| 0 <= i < pre.players@.len() implies (
                #[trigger] post.players@[i]).points == pre.players@[i].points by {
                    assert(post.players@[i] == with_turn(s.players@[i], i == new_idx));
                }
            }
        } else {
            assert(res == Ok::<PickOutcome, GameError>(PickOutcome::AwaitingSecondPick));
            assert(post.players@ == s.players@);
        }
    } else {
        assert(post == s);
    }
}

/// Termination: a well-formed session is finished only with its whole
/// board resolved, and twice the total score then equals the board
/// length. A match scores exactly one point and resolves exactly two
/// cards, so a session over `n` pairs finishes after exactly `n`
/// successful matches, however many mismatches came between them.
pub proof fn lemma_finished_after_all_pairs(m: Memory)
    requires
        m.wf(),
        m.state is Finished,
    ensures
        count_gone(m.cards@) == m.cards@.len(),
        2 * sum_points(m.players@) == m.cards@.len(),
{
    lemma_count_gone_full(m.cards@);
}

/// Score soundness: in any well-formed session twice the total score
/// never exceeds the number of resolved cards (it equals it).
pub proof fn lemma_score_bounded_by_resolved(m: Memory)
    requires
        m.wf(),
    ensures
        2 * sum_points(m.players@) == count_gone(m.cards@),
        2 * sum_points(m.players@) <= m.cards@.len(),
{
    crate::counting::lemma_count_gone_bounds(m.cards@);
}

} // verus!
