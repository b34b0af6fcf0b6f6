//! The one randomness source of the library, behind a trusted wrapper.

use vstd::prelude::*;
use rand::Rng;

verus! {

/// Relies on rand's `Rng::gen_range` with a thread-local generator: on a
/// non-empty half-open range it returns a value inside the range (and panics
/// on an empty one, which the precondition rules out). Nothing is assumed
/// about which value comes back.
#[verifier::external_body]
pub(crate) fn random_in_range(lo: i64, hi: i64) -> (r: i64)
    requires
        lo < hi,
    ensures
        lo <= r < hi,
{
    rand::thread_rng().gen_range(lo..hi)
}

} // verus!
