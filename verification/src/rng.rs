//! The library's one source of randomness.

use vstd::prelude::*;
use rand::Rng;

verus! {

/// Relies on `rand::Rng::gen_range` on the thread-local generator, over a
/// half-open integer range: the result lies in `lo..hi`. The call panics on
/// an empty range, which the precondition rules out. Nothing more can be
/// promised of a random draw, so every caller is verified for all results
/// in the range.
#[verifier::external_body]
pub(crate) fn rand_range_u64(lo: u64, hi: u64) -> (r: u64)
    requires
        lo < hi,
    ensures
        lo <= r < hi,
{
    rand::thread_rng().gen_range(lo..hi)
}

} // verus!
