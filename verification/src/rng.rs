use vstd::prelude::*;

verus! {

/// Draws a uniform random integer from the closed range `[lo, hi]`.
///
/// This is the library's whole random-source interface: a producer of uniform
/// integers in a closed range, safe for independent repeated use. Relies on
/// `rand::thread_rng` and `rand::Rng::gen_range`, which for a non-empty
/// inclusive range returns a value within that range. Nothing beyond the
/// bounds is claimed: the draw is random, so two calls on the same arguments
/// may differ.
#[verifier::external_body]
pub(crate) fn random_in_range(lo: u32, hi: u32) -> (r: u32)
    requires
        lo <= hi,
    ensures
        lo <= r <= hi,
{
    rand::Rng::gen_range(&mut rand::thread_rng(), lo..=hi)
}

} // verus!
