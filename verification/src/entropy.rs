//! Random bits come from the `rand` crate. Nothing can be said of a bit
//! before it is drawn, so the items here promise nothing of their results.

use rand::rngs::ThreadRng;
use rand::Rng;
use vstd::prelude::*;

verus! {

/// `rand::rngs::ThreadRng`, the generator that `rand` keeps for each thread.
#[verifier::external_type_specification]
#[verifier::external_body]
pub struct ExThreadRng(rand::rngs::ThreadRng);

/// `rand::thread_rng`: a handle to the calling thread's generator. The first
/// call on a thread seeds the generator from the operating system, and fails
/// where that has no entropy to give.
pub assume_specification[ rand::thread_rng ]() -> (rng: ThreadRng);

/// `Rng::gen::<bool>`: the next bit of the generator, `true` or `false` with
/// even odds. Which of the two comes is not known before the call.
#[verifier::external_body]
pub(crate) fn random_bool(rng: &mut ThreadRng) -> (bit: bool) {
    rng.gen::<bool>()
}

} // verus!
