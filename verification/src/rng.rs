//! Trusted boundary to the process random-number generator. Spawn
//! parameters are drawn here; every contract downstream holds for any
//! value the generator returns within the stated range.

use vstd::prelude::*;
use rand::Rng;

verus! {

/// Declares the thread-local generator handle so it can appear in
/// signatures; its inner state is opaque to the verifier.
#[verifier::external_type_specification]
#[verifier::external_body]
pub struct ExThreadRng(rand::rngs::ThreadRng);

/// Relies on rand::thread_rng: hands out the thread-local generator
/// handle. Nothing is promised of the values it will produce.
#[verifier::external_body]
pub(crate) fn fresh_rng() -> rand::rngs::ThreadRng {
    rand::thread_rng()
}

/// Relies on rand::Rng::gen_range on a half-open integer range: it panics
/// on an empty range, which the precondition rules out, and otherwise
/// returns a value inside the range. Which value comes back is left open.
#[verifier::external_body]
pub(crate) fn gen_range_i64(rng: &mut rand::rngs::ThreadRng, lo: i64, hi: i64) -> (r: i64)
    requires
        lo < hi,
    ensures
        lo <= r < hi,
{
    rng.gen_range(lo..hi)
}

} // verus!
