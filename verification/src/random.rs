//! The injected source of randomness.

use rand::rngs::StdRng;
use rand::Rng;
use vstd::prelude::*;

verus! {

/// `rand::rngs::StdRng`, the seedable generator that the host hands in.
/// Nothing is claimed of its state: the library only passes it on to
/// `draw_in_range`.
#[verifier::external_type_specification]
#[verifier::external_body]
pub struct ExStdRng(StdRng);

/// Draws one integer from the half-open range `low..high`.
///
/// The body calls `rand::Rng::gen_range` on the generator.  That function
/// panics on an empty range, which the precondition rules out; of the value
/// it returns the contract claims only that it lies in the range, which holds
/// whatever state the generator is in.
#[verifier::external_body]
pub(crate) fn draw_in_range(rng: &mut StdRng, low: u64, high: u64) -> (r: u64)
    requires
        low < high,
    ensures
        low <= r < high,
{
    rng.gen_range(low..high)
}

} // verus!
