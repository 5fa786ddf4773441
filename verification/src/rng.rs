//! The core's uniform random source.

use vstd::prelude::*;

verus! {

/// Relies on `rand::random_range` over `lo..hi`: a draw from the thread-local
/// generator lies in the half-open range `[lo, hi)`. It panics only on an
/// empty range, which the precondition rules out.
#[verifier::external_body]
pub(crate) fn draw_range(lo: i64, hi: i64) -> (r: i64)
    requires
        lo < hi,
    ensures
        lo <= r < hi,
{
    rand::random_range(lo..hi)
}

} // verus!
