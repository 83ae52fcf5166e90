//! The one place the core touches a source of randomness.

use vstd::prelude::*;

verus! {

/// Draws a random integer in `[lo, hi)`.
///
/// Relies on `rand::Rng::gen_range` on the thread-local generator: it
/// returns a uniform sample from the half-open range and panics only on an
/// empty range, which the precondition rules out.  Nothing more than the
/// bounds can be promised of a random draw.
#[verifier::external_body]
pub fn random_in_range(lo: i64, hi: i64) -> (r: i64)
    requires
        lo < hi,
    ensures
        lo <= r < hi,
{
    rand::Rng::gen_range(&mut rand::thread_rng(), lo..hi)
}

} // verus!
