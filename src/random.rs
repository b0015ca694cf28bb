use vstd::prelude::*;

verus! {

/// Relies on rand::Rng::gen_range (rand 0.8) over the inclusive range
/// `low..=high`, drawn from rand::thread_rng: the value lies in the range,
/// and the call panics only on an empty range.
#[verifier::external_body]
pub(crate) fn random_in(low: i64, high: i64) -> (r: i64)
    requires
        low <= high,
    ensures
        low <= r <= high,
{
    rand::Rng::gen_range(&mut rand::thread_rng(), low..=high)
}

} // verus!
