//! The random draws that spawning relies on.

use rand::Rng;
use vstd::prelude::*;

verus! {

/// The per-thread generator of the `rand` crate; opaque here.
#[verifier::external_type_specification]
#[verifier::external_body]
pub struct ExThreadRng(rand::rngs::ThreadRng);

/// Relies on rand::thread_rng: a handle on this thread's generator.
pub assume_specification[ rand::thread_rng ]() -> rand::rngs::ThreadRng;

/// Relies on rand::Rng::gen_range: a value drawn from `low..high`. The range
/// must not be empty, where gen_range panics.
#[verifier::external_body]
pub(crate) fn random_in_range(rng: &mut rand::rngs::ThreadRng, low: u32, high: u32) -> (r: u32)
    requires
        low < high,
    ensures
        low <= r < high,
{
    rng.gen_range(low..high)
}

} // verus!
