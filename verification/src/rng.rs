//! The session's only source of randomness: the process-wide generator.

use vstd::prelude::*;
use rand::Rng;

verus! {

/// Relies on rand::thread_rng and rand::Rng::gen_range: a value drawn
/// uniformly from the half-open range `[lo, hi)`; whatever is drawn, the
/// result lies in that range.
#[verifier::external_body]
pub(crate) fn rand_u64_in(lo: u64, hi: u64) -> (r: u64)
    requires
        lo < hi,
    ensures
        lo <= r < hi,
{
    rand::thread_rng().gen_range(lo..hi)
}

} // verus!
