use vstd::prelude::*;
use rand::Rng;

verus! {

/// Relies on rand::Rng::gen_range on an inclusive range, with the generator
/// from rand::thread_rng: the draw lies within the given bounds (gen_range
/// panics only on an empty range, which the precondition rules out).
#[verifier::external_body]
pub(crate) fn rand_in_range(lo: u16, hi: u16) -> (r: u16)
    requires
        lo <= hi,
    ensures
        lo <= r <= hi,
{
    rand::thread_rng().gen_range(lo..=hi)
}

} // verus!
