use rand::Rng;

use vstd::prelude::*;

verus! {

/// Relies on `rand::thread_rng` and `Rng::gen_range` (rand 0.8): a value drawn
/// from the half-open range `lo..hi`; the call panics only on an empty range.
#[verifier::external_body]
pub(crate) fn random_in(lo: i64, hi: i64) -> (r: i64)
    requires
        lo < hi,
    ensures
        lo <= r < hi,
{
    rand::thread_rng().gen_range(lo..hi)
}

} // verus!
