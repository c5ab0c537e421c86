use vstd::prelude::*;

use crate::types::Card;
use crate::types::Player;

verus! {

/// Total score of a roster, in registry order.
pub open spec fn sum_points(ps: Seq<Player>) -> int
    decreases ps.len(),
{
    if ps.len() == 0 {
        0
    } else {
        ps[0].points + sum_points(ps.drop_first())
    }
}

/// Number of resolved (matched-away) cards on a board.
pub open spec fn count_gone(cs: Seq<Card>) -> int
    decreases cs.len(),
{
    if cs.len() == 0 {
        0
    } else {
        (if cs[0].gone {
            1int
        } else {
            0int
        }) + count_gone(cs.drop_first())
    }
}

/// Number of slots showing the image `img`.
pub open spec fn count_img(cs: Seq<Card>, img: Seq<char>) -> int
    decreases cs.len(),
{
    if cs.len() == 0 {
        0
    } else {
        (if cs[0].img_path@ == img {
            1int
        } else {
            0int
        }) + count_img(cs.drop_first(), img)
    }
}

pub proof fn lemma_sum_points_nonneg(ps: Seq<Player>)
    ensures
        sum_points(ps) >= 0,
    decreases ps.len(),
{
    if ps.len() > 0 {
        lemma_sum_points_nonneg(ps.drop_first());
    }
}

/// No single score exceeds the roster's total score.
pub proof fn lemma_sum_points_le(ps: Seq<Player>, i: int)
    requires
        0 <= i < ps.len(),
    ensures
        ps[i].points <= sum_points(ps),
    decreases ps.len(),
{
    lemma_sum_points_nonneg(ps.drop_first());
    if i > 0 {
        lemma_sum_points_le(ps.drop_first(), i - 1);
    }
}

/// Replacing one player changes the total score by the difference
/// between the new and the old points of that player.
pub proof fn lemma_sum_points_update(ps: Seq<Player>, i: int, p: Player)
    requires
        0 <= i < ps.len(),
    ensures
        sum_points(ps.update(i, p)) == sum_points(ps) - ps[i].points + p.points,
    decreases ps.len(),
{
    if i == 0 {
        assert(ps.update(0, p).drop_first() =~= ps.drop_first());
    } else {
        lemma_sum_points_update(ps.drop_first(), i - 1, p);
        assert(ps.update(i, p).drop_first() =~= ps.drop_first().update(i - 1, p));
    }
}

/// Appending a player adds that player's points to the total score.
pub proof fn lemma_sum_points_push(ps: Seq<Player>, p: Player)
    ensures
        sum_points(ps.push(p)) == sum_points(ps) + p.points,
    decreases ps.len(),
{
    if ps.len() == 0 {
        assert(ps.push(p).drop_first() =~= ps);
    } else {
        lemma_sum_points_push(ps.drop_first(), p);
        assert(ps.push(p).drop_first() =~= ps.drop_first().push(p));
        assert(ps.push(p)[0] == ps[0]);
    }
}

pub proof fn lemma_count_gone_bounds(cs: Seq<Card>)
    ensures
        0 <= count_gone(cs) <= cs.len(),
    decreases cs.len(),
{
    if cs.len() > 0 {
        lemma_count_gone_bounds(cs.drop_first());
    }
}

/// Replacing one card changes the resolved count by the difference
/// of the two resolved flags.
pub proof fn lemma_count_gone_update(cs: Seq<Card>, i: int, c: Card)
    requires
        0 <= i < cs.len(),
    ensures
        count_gone(cs.update(i, c)) == count_gone(cs) - (if cs[i].gone {
            1int
        } else {
            0int
        }) + (if c.gone {
            1int
        } else {
            0int
        }),
    decreases cs.len(),
{
    if i == 0 {
        assert(cs.update(0, c).drop_first() =~= cs.drop_first());
    } else {
        lemma_count_gone_update(cs.drop_first(), i - 1, c);
        assert(cs.update(i, c).drop_first() =~= cs.drop_first().update(i - 1, c));
    }
}

/// The whole board is resolved exactly when the resolved count
/// reaches the board length.
pub proof fn lemma_count_gone_full(cs: Seq<Card>)
    ensures
        count_gone(cs) == cs.len() <==> (forall|i: int| 0 <= i < cs.len() ==> (#[trigger] cs[i]).gone),
    decreases cs.len(),
{
    if cs.len() > 0 {
        lemma_count_gone_full(cs.drop_first());
        lemma_count_gone_bounds(cs.drop_first());
        if count_gone(cs) == cs.len() {
            assert forall|i: int| 0 <= i < cs.len() implies (#[trigger] cs[i]).gone by {
                if i > 0 {
                    assert(cs.drop_first()[i - 1].gone);
                }
            }
        }
        if forall|i: int| 0 <= i < cs.len() ==> (#[trigger] cs[i]).gone {
            assert forall|j: int| 0 <= j < cs.drop_first().len() implies (#[trigger] cs.drop_first()[j]).gone by {
                assert(cs.drop_first()[j] == cs[j + 1]);
            }
        }
    }
}

/// Boards that agree slot by slot on the resolved flag have the same
/// resolved count.
pub proof fn lemma_count_gone_congruence(a: Seq<Card>, b: Seq<Card>)
    requires
        a.len() == b.len(),
        forall|i: int| 0 <= i < a.len() ==> (#[trigger] a[i]).gone == b[i].gone,
    ensures
        count_gone(a) == count_gone(b),
    decreases a.len(),
{
    if a.len() > 0 {
        assert forall|j: int| 0 <= j < a.drop_first().len() implies (#[trigger] a.drop_first()[j]).gone
            == b.drop_first()[j].gone by {
            assert(a.drop_first()[j] == a[j + 1]);
            assert(b.drop_first()[j] == b[j + 1]);
        }
        lemma_count_gone_congruence(a.drop_first(), b.drop_first());
    }
}

/// Rosters that agree player by player on points have the same total score.
pub proof fn lemma_sum_points_congruence(a: Seq<Player>, b: Seq<Player>)
    requires
        a.len() == b.len(),
        forall|i: int| 0 <= i < a.len() ==> (#[trigger] a[i]).points == b[i].points,
    ensures
        sum_points(a) == sum_points(b),
    decreases a.len(),
{
    if a.len() > 0 {
        assert forall|j: int| 0 <= j < a.drop_first().len() implies (#[trigger] a.drop_first()[j]).points
            == b.drop_first()[j].points by {
            assert(a.drop_first()[j] == a[j + 1]);
            assert(b.drop_first()[j] == b[j + 1]);
        }
        lemma_sum_points_congruence(a.drop_first(), b.drop_first());
    }
}

/// Appending a card adds one to the count of its own image and
/// leaves every other count unchanged.
pub proof fn lemma_count_img_push(cs: Seq<Card>, c: Card)
    ensures
        forall|img: Seq<char>| #[trigger] count_img(cs.push(c), img) == count_img(cs, img) + (
        if c.img_path@ == img {
            1int
        } else {
            0int
        }),
    decreases cs.len(),
{
    if cs.len() == 0 {
        assert(cs.push(c).drop_first() =~= cs);
        assert forall|img: Seq<char>| #[trigger] count_img(cs.push(c), img) == count_img(cs, img)
            + (if c.img_path@ == img {
            1int
        } else {
            0int
        }) by {
            assert(cs.push(c)[0] == c);
        }
    } else {
        lemma_count_img_push(cs.drop_first(), c);
        assert(cs.push(c).drop_first() =~= cs.drop_first().push(c));
        assert forall|img: Seq<char>| #[trigger] count_img(cs.push(c), img) == count_img(cs, img)
            + (if c.img_path@ == img {
            1int
        } else {
            0int
        }) by {
            assert(cs.push(c)[0] == cs[0]);
            assert(count_img(cs.drop_first().push(c), img) == count_img(cs.drop_first(), img) + (
            if c.img_path@ == img {
                1int
            } else {
                0int
            }));
        }
    }
}

/// A board with no resolved card has a resolved count of zero.
pub proof fn lemma_count_gone_zero(cs: Seq<Card>)
    requires
        forall|i: int| 0 <= i < cs.len() ==> !(#[trigger] cs[i]).gone,
    ensures
        count_gone(cs) == 0,
    decreases cs.len(),
{
    if cs.len() > 0 {
        assert forall|j: int| 0 <= j < cs.drop_first().len() implies !(#[trigger] cs.drop_first()[j]).gone by {
            assert(cs.drop_first()[j] == cs[j + 1]);
        }
        lemma_count_gone_zero(cs.drop_first());
    }
}

} // verus!
