//! The source of randomness, which lives outside this crate.

use vstd::prelude::*;
use rand::Rng;

verus! {

/// `rand::rngs::ThreadRng`, the handle to the calling thread's generator.
/// Nothing is known of what it holds.
#[verifier::external_type_specification]
#[verifier::external_body]
pub struct ExThreadRng(rand::rngs::ThreadRng);

/// `rand::thread_rng` hands out the calling thread's generator, which the
/// operating system seeds on the thread's first call; where it cannot, that
/// call panics. Nothing is claimed of the handle.
pub assume_specification[ rand::thread_rng ]() -> (rng: rand::rngs::ThreadRng);

/// Draws the next value with `rand::Rng::gen`, which for a `u32` passes on
/// the generator's next 32 bits. Nothing is claimed of the value: every `u32`
/// can come back, and two draws need not agree.
#[verifier::external_body]
pub(crate) fn next_sample(rng: &mut rand::rngs::ThreadRng) -> (sample: u32) {
    rng.gen::<u32>()
}

} // verus!
