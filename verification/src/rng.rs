use vstd::prelude::*;

use rand::seq::SliceRandom;
use rand::Rng;

use crate::counting::count_img;
use crate::types::Card;

verus! {

/// A character a bearer token may carry: ASCII letters and digits.
pub open spec fn is_token_char(c: char) -> bool {
    ||| 'a' <= c && c <= 'z'
    ||| 'A' <= c && c <= 'Z'
    ||| '0' <= c && c <= '9'
}

/// Every character of the string is a token character.
pub open spec fn token_chars_ok(s: Seq<char>) -> bool {
    forall|i: int| 0 <= i < s.len() ==> is_token_char(#[trigger] s[i])
}

/// Relies on rand's `SliceRandom::shuffle` (Fisher-Yates, swap-based,
/// in-place): it permutes the slice's elements and neither adds, drops
/// nor alters one, so the length, every image's count and membership
/// of every card value are preserved.
#[verifier::external_body]
pub(crate) fn shuffle_cards(v: &mut Vec<Card>)
    ensures
        final(v)@.len() == old(v)@.len(),
        forall|img: Seq<char>| #[trigger] count_img(final(v)@, img) == count_img(old(v)@, img),
        forall|i: int| 0 <= i < final(v)@.len() ==> old(v)@.contains(#[trigger] final(v)@[i]),
{
    v.shuffle(&mut rand::thread_rng());
}

/// Relies on rand's `thread_rng` sampling the `Alphanumeric`
/// distribution: an endless stream of random characters drawn from
/// `A-Z`, `a-z` and `0-9`, of which exactly 30 are taken here. Beyond
/// the length and the character set nothing can be promised of a
/// randomly drawn string.
#[verifier::external_body]
pub(crate) fn random_token() -> (r: String)
    ensures
        r@.len() == 30,
        token_chars_ok(r@),
{
    rand::thread_rng().sample_iter(&rand::distributions::Alphanumeric).take(30).map(
        char::from,
    ).collect()
}

} // verus!
