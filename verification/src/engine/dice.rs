//! The random source of the engine.
//!
//! Every random draw goes through one of the two functions below, on a
//! generator that the caller passes in, so that a match can be replayed from a
//! seed. Their contracts are believed, not proved: they state what the `rand`
//! crate documents of the calls made in their bodies.

use rand::rngs::StdRng;
use rand::Rng;
use vstd::prelude::*;

verus! {

/// `rand::rngs::StdRng`, the seedable generator that the engine draws from.
/// Verus carries values of it through and sees nothing inside.
#[verifier::external_type_specification]
#[verifier::external_body]
pub struct ExStdRng(StdRng);

/// Calls `Rng::gen_range` on the half-open range `0..n`.
///
/// The `rand` crate documents that the value lies in the range given, and that
/// the call panics on an empty range; so `n` must be positive and the result
/// is below `n`. Which value comes is left open.
#[verifier::external_body]
pub(crate) fn draw_below(rng: &mut StdRng, n: u8) -> (r: u8)
    requires
        n > 0,
    ensures
        r < n,
{
    rng.gen_range(0..n)
}

/// Calls `Rng::gen::<bool>`, a fair coin. Nothing is promised of the result.
#[verifier::external_body]
pub(crate) fn flip_coin(rng: &mut StdRng) -> (heads: bool) {
    rng.gen::<bool>()
}

} // verus!
