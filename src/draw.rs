//! Uniform draws from rand's standard generator.

use rand::rngs::StdRng;
use rand::Rng;
use vstd::prelude::*;

verus! {

/// rand's seedable standard generator, carried through as an opaque value.
#[verifier::external_type_specification]
#[verifier::external_body]
pub struct ExStdRng(StdRng);

/// Relies on rand's `Rng::gen_range` over an inclusive `u64` range from zero:
/// the value is at most the bound; the range is never empty.
#[verifier::external_body]
pub(crate) fn draw_u64_upto(rng: &mut StdRng, hi: u64) -> (r: u64)
    ensures
        r <= hi,
{
    rng.gen_range(0..=hi)
}

} // verus!
