//! The thread-local random number generator that particle emission draws from.
use rand::rngs::ThreadRng;
use rand::RngExt;
use vstd::prelude::*;

verus! {

/// The thread-local generator of the `rand` crate, carried through opaque.
#[verifier::external_type_specification]
#[verifier::external_body]
pub struct ExThreadRng(rand::rngs::ThreadRng);

/// Calls `rand::rng`, which hands out a handle to the thread-local generator.
/// Nothing is claimed of the handle. `rand` documents that the call panics
/// when the operating system cannot seed the generator, which no argument can
/// rule out.
#[verifier::external_body]
pub(crate) fn thread_rng() -> (rng: ThreadRng) {
    rand::rng()
}

/// Calls `RngExt::random_range` with the half-open range `low..high` of
/// `u64`. The result depends on chance, so the contract claims only what
/// holds of every outcome: it lies in the range. `rand` panics on an empty
/// range, which the `requires` leaves out.
#[verifier::external_body]
pub(crate) fn random_range(rng: &mut ThreadRng, low: u64, high: u64) -> (sample: u64)
    requires
        low < high,
    ensures
        low <= sample < high,
{
    rng.random_range(low..high)
}

} // verus!
