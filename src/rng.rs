//! The random source used to place wall gaps.
use bracket_lib::prelude::RandomNumberGenerator;
use vstd::prelude::*;

verus! {

#[verifier::external_type_specification]
#[verifier::external_body]
pub struct ExRandomNumberGenerator(RandomNumberGenerator);

/// Relies on `RandomNumberGenerator::new` (bracket_random, re-exported by
/// bracket_lib): a generator seeded from the system. Nothing is promised about
/// the values it will produce.
#[verifier::external_body]
pub(crate) fn new_rng() -> (r: RandomNumberGenerator) {
    RandomNumberGenerator::new()
}

/// Relies on `RandomNumberGenerator::range` (bracket_random), which samples
/// `min..max` with rand's `gen_range`: the value lies in `[min, max)`. An empty
/// range panics there, so it is excluded.
#[verifier::external_body]
pub(crate) fn random_range(rng: &mut RandomNumberGenerator, min: i32, max: i32) -> (r: i32)
    requires
        min < max,
    ensures
        min <= r < max,
{
    rng.range(min, max)
}

} // verus!
