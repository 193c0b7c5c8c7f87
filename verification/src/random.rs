//! The seeded random source: a small pseudo-random generator that is built
//! from a 64-bit seed and hands out uniform integers.

use rand::rngs::SmallRng;
use rand::Rng;
use rand::SeedableRng;
use vstd::prelude::*;

verus! {

/// Smallest seed that a reseed draws.
pub const SEED_FLOOR: i64 = 1000;

/// Exclusive upper bound of the seeds that a reseed draws.
pub const SEED_CEILING: i64 = 9_000_000_000;

/// `rand::rngs::SmallRng`, carried through as an opaque value.
#[verifier::external_type_specification]
#[verifier::external_body]
pub struct ExSmallRng(SmallRng);

/// Builds a generator with `SeedableRng::seed_from_u64`. Nothing is claimed
/// of the generator that comes back.
#[verifier::external_body]
fn seed_small_rng(seed: u64) -> (rng: SmallRng) {
    SmallRng::seed_from_u64(seed)
}

/// Draws with `Rng::gen_range` from the half-open range `low..high`. The
/// call panics on an empty range, which the precondition leaves out; all
/// that is claimed of the value is that it lies in the range.
#[verifier::external_body]
fn gen_range_i64(rng: &mut SmallRng, low: i64, high: i64) -> (value: i64)
    requires
        low < high,
    ensures
        low <= value < high,
{
    rng.gen_range(low..high)
}

/// A reseedable source of uniform integer draws.
pub struct SeededRandomSource {
    rng: SmallRng,
    seed: u64,
}

impl SeededRandomSource {
    /// The seed the source was last built from.
    pub closed spec fn seed_value(&self) -> u64 {
        self.seed
    }

    /// A source that starts the stream of `seed`.
    pub fn new(seed: u64) -> (source: SeededRandomSource)
        ensures
            source.seed_value() == seed,
    {
        SeededRandomSource { rng: seed_small_rng(seed), seed }
    }

    /// The seed the source was last built from.
    pub fn seed(&self) -> (seed: u64)
        ensures
            seed == self.seed_value(),
    {
        self.seed
    }

    /// Draws a uniform integer from `low..high`.
    pub fn draw(&mut self, low: i64, high: i64) -> (value: i64)
        requires
            low < high,
        ensures
            low <= value < high,
            final(self).seed_value() == old(self).seed_value(),
    {
        gen_range_i64(&mut self.rng, low, high)
    }

    /// Draws a uniform integer from `low..high`, or nothing when the range
    /// is empty.
    pub fn try_draw(&mut self, low: i64, high: i64) -> (value: Option<i64>)
        ensures
            value is Some <==> low < high,
            value matches Some(v) ==> low <= v < high,
            final(self).seed_value() == old(self).seed_value(),
            low >= high ==> *final(self) == *old(self),
    {
        if low < high {
            Some(self.draw(low, high))
        } else {
            None
        }
    }

    /// Restarts the source at `seed`.
    pub fn reseed(&mut self, seed: u64)
        ensures
            final(self).seed_value() == seed,
    {
        self.rng = seed_small_rng(seed);
        self.seed = seed;
    }

    /// Draws a fresh seed from the current stream and restarts the source
    /// at it.
    pub fn reseed_from_draw(&mut self) -> (seed: u64)
        ensures
            final(self).seed_value() == seed,
            SEED_FLOOR <= seed < SEED_CEILING,
    {
        let drawn: i64 = self.draw(SEED_FLOOR, SEED_CEILING);
        let seed: u64 = drawn as u64;
        self.reseed(seed);
        seed
    }
}

} // verus!
