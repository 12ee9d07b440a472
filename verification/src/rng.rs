//! The one random draw the library needs: a uniform index for the
//! Fisher–Yates shuffle of the playback queue.

use vstd::prelude::*;

verus! {

/// Relies on rand::random_range over `0..n`: a uniform draw strictly
/// below `n` (the call panics on an empty range, so `n` must be
/// positive).
#[verifier::external_body]
pub(crate) fn rand_below(n: usize) -> (r: usize)
    requires n >= 1,
    ensures r < n,
{
    rand::random_range(0..n)
}

} // verus!
