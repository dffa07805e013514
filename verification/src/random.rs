//! The random draws that maze generation needs, taken from the `rand` crate.
//!
//! Nothing here is proved: each contract records what `rand` documents of
//! the function that the body calls. A draw depends on the generator's
//! hidden state, so a contract states only what holds of every outcome, and
//! two calls with the same arguments may differ.

use rand::rngs::{StdRng, ThreadRng};
use rand::{Rng, SeedableRng};
use vstd::prelude::*;

verus! {

/// `rand::rngs::StdRng`, the seedable generator that the game draws from.
/// Its state is hidden from the proofs.
#[verifier::external_type_specification]
#[verifier::external_body]
pub struct ExStdRng(StdRng);

/// `rand::rngs::ThreadRng`, the handle to the calling thread's generator.
/// Its state is hidden from the proofs.
#[verifier::external_type_specification]
#[verifier::external_body]
pub struct ExThreadRng(ThreadRng);

/// Calls `rand::rng()`, which hands out the calling thread's generator.
/// Nothing is claimed of the handle. `rand` seeds that generator from the
/// operating system and panics if the system has no entropy to give; no
/// argument decides that.
#[verifier::external_body]
pub(crate) fn thread_generator() -> ThreadRng {
    rand::rng()
}

/// Calls `StdRng::from_rng`, which fills a seed with bytes drawn from
/// `parent` and builds a generator of it. Nothing is claimed of the new
/// generator.
#[verifier::external_body]
pub(crate) fn generator_from(parent: &mut ThreadRng) -> StdRng {
    StdRng::from_rng(parent)
}

/// Calls `Rng::random_range(..bound)`, which draws a value from `0..bound`.
/// `rand` panics on an empty range, so `bound` must be positive; for
/// integers it documents that the drawn value is always strictly below
/// the range's end.
#[verifier::external_body]
pub(crate) fn draw_below(rng: &mut StdRng, bound: usize) -> (drawn: usize)
    requires
        bound > 0,
    ensures
        drawn < bound,
{
    rng.random_range(..bound)
}

/// Calls `Rng::random_ratio(numerator, denominator)`, which is `true` with
/// probability `numerator / denominator`. `rand` panics on a zero
/// denominator and on a numerator above the denominator, so both are ruled
/// out. It documents the outcome for the two sure ratios only: always
/// `true` for one, always `false` for zero.
#[verifier::external_body]
pub(crate) fn draw_ratio(rng: &mut StdRng, numerator: u32, denominator: u32) -> (outcome: bool)
    requires
        denominator > 0,
        numerator <= denominator,
    ensures
        numerator == denominator ==> outcome,
        numerator == 0 ==> !outcome,
{
    rng.random_ratio(numerator, denominator)
}

} // verus!
