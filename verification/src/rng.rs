//! The engine's single source of randomness, behind a trusted boundary.

use rand::Rng;
use vstd::prelude::*;

verus! {

/// Relies on `rand::thread_rng` and `rand::Rng::gen_range` over the
/// half-open range `lo..hi`: the draw lies in `[lo, hi)`. `gen_range`
/// panics on an empty range, which `lo < hi` rules out. Nothing more is
/// assumed — in particular not which value comes back, so callers must
/// hold for every value in the range.
#[verifier::external_body]
pub(crate) fn random_in_range(lo: u16, hi: u16) -> (r: u16)
    requires
        lo < hi,
    ensures
        lo <= r < hi,
{
    rand::thread_rng().gen_range(lo..hi)
}

} // verus!
