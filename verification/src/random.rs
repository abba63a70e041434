//! The random source of the game.
//!
//! Every rule that needs chance takes the generator as a parameter, so that a
//! caller who seeds it gets the same game twice.

use rand::rngs::StdRng;
use rand::Rng;
use vstd::prelude::*;

verus! {

/// The seedable generator of the `rand` crate. Nothing is known of its state.
#[verifier::external_type_specification]
#[verifier::external_body]
pub struct ExStdRng(rand::rngs::StdRng);

/// Draws an integer from `low` up to, but not including, `high`.
///
/// Trusted: this is `Rng::gen_range` of the `rand` crate on the half-open
/// range `low..high`. It panics on an empty range, which the precondition
/// excludes, and otherwise returns `low` plus an offset below `high - low`.
/// Which value comes back depends on the generator's state, so only the
/// bounds are claimed.
#[verifier::external_body]
pub(crate) fn draw(rng: &mut StdRng, low: i32, high: i32) -> (value: i32)
    requires
        low < high,
    ensures
        low <= value < high,
{
    rng.gen_range(low..high)
}

} // verus!
