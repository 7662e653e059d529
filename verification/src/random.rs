//! The random choices that the generators make, drawn from the `rand` crate, and the
//! identifiers drawn from the `uuid` crate.
//!
//! Each item here is trusted: its contract states what the outside crate's source shows of
//! every outcome, and nothing about which outcome comes.

use rand::distributions::{Distribution, WeightedIndex};
use rand::seq::IteratorRandom;
use rand::Rng;
use rand::RngCore;
use vstd::prelude::*;

verus! {

/// The sum of a list of weights.
pub open spec fn weight_sum(weights: Seq<u64>) -> int
    decreases weights.len(),
{
    if weights.len() == 0 {
        0
    } else {
        weight_sum(weights.drop_last()) + weights.last()
    }
}

/// Whether `rand`'s `WeightedIndex` accepts these weights: at least one of them is not zero.
pub open spec fn weights_can_be_sampled(weights: Seq<u64>) -> bool {
    weight_sum(weights) > 0
}

/// Calls `rand::seq::IteratorRandom::choose` on the range `low..high` with the thread's
/// generator. For a range, whose length is known, `choose` returns `None` when the range is
/// empty and otherwise the element at a uniformly drawn position: some `x` with
/// `low <= x < high`. Which one is not stated.
#[verifier::external_body]
pub(crate) fn choose_in_range(low: usize, high: usize) -> (chosen: Option<usize>)
    ensures
        chosen is None <==> low >= high,
        chosen matches Some(x) ==> low <= x < high,
{
    (low..high).choose(&mut rand::thread_rng())
}

/// Builds `rand::distributions::WeightedIndex` from `weights` and, when it is built, draws one
/// index from it with the thread's generator. `WeightedIndex::new` fails on an empty list and
/// on weights that are all zero, which is when their sum is zero; the sum must not overflow a
/// `u64`, since `new` adds the weights up in that type. A drawn index lies on a weight that
/// is not zero: the draw is a value below the total, located among the running sums. Which
/// index is drawn is not stated.
#[verifier::external_body]
pub(crate) fn sample_weighted_index(weights: &Vec<u64>) -> (index: Option<usize>)
    requires
        weight_sum(weights@) <= u64::MAX,
    ensures
        index is None <==> !weights_can_be_sampled(weights@),
        index matches Some(i) ==> i < weights@.len() && weights@[i as int] > 0,
{
    match WeightedIndex::new(weights) {
        Ok(distribution) => Some(distribution.sample(&mut rand::thread_rng())),
        Err(_) => None,
    }
}

/// Calls `rand::RngCore::next_u32` on the thread's generator. Any `u32` may come back.
#[verifier::external_body]
pub(crate) fn random_u32() -> u32 {
    rand::thread_rng().next_u32()
}

/// Calls `rand::Rng::gen_range` with the range `low..=high` on the thread's generator.
/// `gen_range` asserts that the range is not empty; the value lies within it.
#[verifier::external_body]
pub(crate) fn gen_range_inclusive(low: u32, high: u32) -> (value: u32)
    requires
        low <= high,
    ensures
        low <= value <= high,
{
    rand::thread_rng().gen_range(low..=high)
}

/// Calls `rand::Rng::gen_ratio` on the thread's generator: `true` with probability
/// `numerator / denominator`. It panics unless `numerator <= denominator` and
/// `denominator > 0`; a zero numerator always gives `false`, a numerator equal to the
/// denominator always gives `true`.
#[verifier::external_body]
pub(crate) fn gen_ratio(numerator: u32, denominator: u32) -> (happened: bool)
    requires
        0 < denominator,
        numerator <= denominator,
    ensures
        numerator == 0 ==> !happened,
        numerator == denominator ==> happened,
{
    rand::thread_rng().gen_ratio(numerator, denominator)
}

/// Whether a character is a lower-case hexadecimal digit.
pub open spec fn is_lower_hex_digit(c: char) -> bool {
    ('0' <= c <= '9') || ('a' <= c <= 'f')
}

/// The text of a random (version 4) UUID in hyphenated lower-case form, such as
/// `67e55044-10b1-426f-9247-bb680e5fe0c8`.
pub open spec fn is_hyphenated_v4_uuid(text: Seq<char>) -> bool {
    &&& text.len() == 36
    &&& forall|i: int|
        0 <= i < 36 ==> if i == 8 || i == 13 || i == 18 || i == 23 {
            text[i] == '-'
        } else {
            is_lower_hex_digit(#[trigger] text[i])
        }
    &&& text[14] == '4'
    &&& (text[19] == '8' || text[19] == '9' || text[19] == 'a' || text[19] == 'b')
}

/// Calls `uuid::Uuid::new_v4` and turns the result into a `String` with `to_string`. The
/// source sets the version nibble to 4 and the variant bits to `10`, and `Display` writes the
/// hyphenated lower-case form. The other 122 bits are random and not stated.
#[verifier::external_body]
pub(crate) fn new_guid() -> (guid: String)
    ensures
        is_hyphenated_v4_uuid(guid@),
{
    uuid::Uuid::new_v4().to_string()
}

} // verus!
