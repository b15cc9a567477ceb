use vstd::prelude::*;
use rand::Rng;

verus! {

/// Draws a number from `low` up to, not including, `high` with
/// `rand::Rng::gen_range` on the thread's generator. Trusted: `gen_range`
/// panics when `low >= high` and otherwise returns a value of the half-open
/// range; which value comes back is left to chance.
#[verifier::external_body]
pub(crate) fn random_in(low: u64, high: u64) -> (r: u64)
    requires
        low < high,
    ensures
        low <= r < high,
{
    rand::thread_rng().gen_range(low, high)
}

} // verus!
