//! The randomness collaborator: a seeded generator from the `rand` crate,
//! consumed through two trusted wrappers.  Nothing about the stream is
//! assumed beyond range membership, so every consumer is verified for every
//! outcome the generator may produce.

use vstd::prelude::*;

verus! {

#[verifier::external_type_specification]
#[verifier::external_body]
pub struct ExStdRng(rand::rngs::StdRng);

/// Relies on rand's `SeedableRng::seed_from_u64` for `StdRng`: builds a
/// generator deterministically from a word-sized seed.  Nothing is assumed
/// about the stream it produces.
#[verifier::external_body]
pub(crate) fn rng_from_seed(seed: u64) -> rand::rngs::StdRng {
    rand::SeedableRng::seed_from_u64(seed)
}

/// Relies on rand's `RngExt::random_range`: returns a value of the given
/// range, and panics only on an empty range, which the precondition rules
/// out.  Only membership in the range is assumed; any value below the bound
/// may come back on any call.
#[verifier::external_body]
pub(crate) fn rng_below(rng: &mut rand::rngs::StdRng, bound: u64) -> (r: u64)
    requires
        bound >= 1,
    ensures
        r < bound,
{
    rand::RngExt::random_range(rng, 0..bound)
}

} // verus!
