//! The source of the random draws that proxy rotation and header variation
//! make. A source made from a seed repeats its draws, which tests rely on.

use rand::rngs::{OsRng, StdRng};
use rand::{Rng, SeedableRng};
use vstd::prelude::*;

verus! {

/// `rand::rngs::StdRng`, the generator behind every source. It is carried
/// about and handed to the calls below; nothing is known of its state.
#[verifier::external_type_specification]
#[verifier::external_body]
pub struct ExStdRng(StdRng);

/// `StdRng::seed_from_u64`: a generator whose stream is set by `seed`.
/// Nothing is claimed of the stream.
#[verifier::external_body]
fn generator_from_seed(seed: u64) -> (generator: StdRng) {
    StdRng::seed_from_u64(seed)
}

/// `StdRng::from_rng` on `OsRng`: a generator seeded by the operating system,
/// or nothing where the system gives no entropy.
#[verifier::external_body]
fn generator_from_system() -> (generator: Option<StdRng>) {
    StdRng::from_rng(OsRng).ok()
}

/// `Rng::gen_range` on `0..bound`: the draw lies in the range. An empty range
/// makes the call panic, so `bound` is positive.
#[verifier::external_body]
fn draw_below(generator: &mut StdRng, bound: usize) -> (drawn: usize)
    requires
        bound > 0,
    ensures
        drawn < bound,
{
    generator.gen_range(0..bound)
}

/// `Rng::gen_ratio`: true with probability `numerator / denominator`; always
/// true when the two are equal, never when `numerator` is zero. The call
/// panics on a zero denominator and on a ratio above one.
#[verifier::external_body]
fn draw_ratio(generator: &mut StdRng, numerator: u32, denominator: u32) -> (hit: bool)
    requires
        denominator > 0,
        numerator <= denominator,
    ensures
        numerator == denominator ==> hit,
        numerator == 0 ==> !hit,
{
    generator.gen_ratio(numerator, denominator)
}

/// A stream of random draws.
pub struct RandomSource {
    generator: StdRng,
}

impl RandomSource {
    /// A source whose draws are fixed by `seed`.
    pub fn from_seed(seed: u64) -> (source: RandomSource) {
        RandomSource { generator: generator_from_seed(seed) }
    }

    /// A source seeded by the operating system, unless it has no entropy to
    /// give.
    pub fn from_entropy() -> (source: Option<RandomSource>) {
        match generator_from_system() {
            Some(generator) => Some(RandomSource { generator }),
            None => None,
        }
    }

    /// An index below `bound`, each equally likely.
    pub fn index_below(&mut self, bound: usize) -> (drawn: usize)
        requires
            bound > 0,
        ensures
            drawn < bound,
    {
        draw_below(&mut self.generator, bound)
    }

    /// True with probability `numerator / denominator`.
    pub fn chance(&mut self, numerator: u32, denominator: u32) -> (hit: bool)
        requires
            denominator > 0,
            numerator <= denominator,
        ensures
            numerator == denominator ==> hit,
            numerator == 0 ==> !hit,
    {
        draw_ratio(&mut self.generator, numerator, denominator)
    }
}

} // verus!
