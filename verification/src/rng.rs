//! The one source of randomness: a draw from a half-open range.

use vstd::prelude::*;

use rand::Rng;

verus! {

/// Relies on rand's `thread_rng` and `Rng::gen_range(0..bound)`: the draw
/// lies in the given half-open range, and the range is nonempty so the
/// call cannot panic. Nothing is assumed about which value comes back.
#[verifier::external_body]
pub(crate) fn random_below(bound: i32) -> (r: i32)
    requires
        0 < bound,
    ensures
        0 <= r < bound,
{
    rand::thread_rng().gen_range(0..bound)
}

} // verus!
