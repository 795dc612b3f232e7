use vstd::prelude::*;
use rand::Rng;
use rand::SeedableRng;
use rand_xoshiro::Xoshiro256StarStar;

verus! {

/// The scale on which the generator's probabilities are expressed: a
/// probability is a number of parts per `PROB_ONE` (one million). `0` means
/// the draw never succeeds; any value at or above `PROB_ONE` means it always
/// succeeds, so an out-of-range probability saturates instead of failing.
pub const PROB_ONE: u32 = 1_000_000;

#[verifier::external_type_specification]
#[verifier::external_body]
pub struct ExXoshiro(Xoshiro256StarStar);

/// Relies on `rand_core::SeedableRng::from_entropy` for
/// `rand_xoshiro::Xoshiro256StarStar`: a pseudorandom generator freshly
/// seeded from the operating system's entropy source. Nothing is promised of
/// the values it will yield. Aborts only if the entropy source itself fails.
#[verifier::external_body]
pub(crate) fn new_rng() -> Xoshiro256StarStar {
    Xoshiro256StarStar::from_entropy()
}

/// Relies on `rand::Rng::gen_range` over `0..bound`: it returns a uniformly
/// distributed value of the non-empty range, so the result is below `bound`;
/// it panics only when the range is empty, which the precondition rules out.
#[verifier::external_body]
pub(crate) fn draw_below(rng: &mut Xoshiro256StarStar, bound: usize) -> (r: usize)
    requires
        bound >= 1,
    ensures
        r < bound,
{
    rng.gen_range(0..bound)
}

/// Draw a boolean that is true with probability `num / PROB_ONE`.
///
/// Only the saturated edges are promised: a zero numerator never succeeds
/// and a numerator at or above `PROB_ONE` always does. Between the two the
/// outcome depends on the random draw alone.
pub(crate) fn draw_weighted(rng: &mut Xoshiro256StarStar, num: u32) -> (b: bool)
    ensures
        num == 0 ==> !b,
        num >= PROB_ONE ==> b,
{
    let r = draw_below(rng, PROB_ONE as usize);
    r < num as usize
}

} // verus!
