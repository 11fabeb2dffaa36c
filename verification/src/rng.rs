use vstd::prelude::*;

verus! {

/// Relies on rand::Rng::gen_range on a rand::rngs::ThreadRng: for the
/// non-empty range `0..n` it returns a value of that range, drawn uniformly
/// from it.
#[verifier::external_body]
pub(crate) fn sample_below(n: u8) -> (r: u8)
    requires
        n > 0,
    ensures
        r < n,
{
    rand::Rng::gen_range(&mut rand::thread_rng(), 0..n)
}

} // verus!
