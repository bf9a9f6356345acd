//! The emulator's source of randomness: a pseudo-random generator of the
//! `rand` crate, owned by the emulator core and seeded at construction, so
//! a test can seed it deterministically.  Nothing is assumed about the
//! values drawn beyond the range they are drawn from.

use vstd::prelude::*;

verus! {

/// Declares `rand`'s standard generator type, so the emulator core can hold
/// one; the type stays opaque.
#[verifier::external_type_specification]
#[verifier::external_body]
pub struct ExStdRng(rand::rngs::StdRng);

/// Relies on `rand::random`: a fresh value from the thread-local generator,
/// used only to seed an emulator's own generator.
#[verifier::external_body]
pub(crate) fn random_seed() -> u64 {
    rand::random()
}

/// Relies on `rand_core::SeedableRng::seed_from_u64`: a generator whose
/// stream is a function of the seed alone.
#[verifier::external_body]
pub(crate) fn rng_from_seed(seed: u64) -> rand::rngs::StdRng {
    rand::SeedableRng::seed_from_u64(seed)
}

/// Relies on `rand::Rng::random_range` over the half-open range `lo..hi`:
/// the sample lies in the range, and the call panics only on an empty range,
/// which the precondition rules out.
#[verifier::external_body]
pub(crate) fn random_range_u64(rng: &mut rand::rngs::StdRng, lo: u64, hi: u64) -> (r: u64)
    requires
        lo < hi,
    ensures
        lo <= r < hi,
{
    rand::Rng::random_range(rng, lo..hi)
}

/// Relies on `rand::Rng::random_range` over the half-open range `lo..hi`:
/// the sample lies in the range, and the call panics only on an empty range,
/// which the precondition rules out.
#[verifier::external_body]
pub(crate) fn random_range_i32(rng: &mut rand::rngs::StdRng, lo: i32, hi: i32) -> (r: i32)
    requires
        lo < hi,
    ensures
        lo <= r < hi,
{
    rand::Rng::random_range(rng, lo..hi)
}

} // verus!
