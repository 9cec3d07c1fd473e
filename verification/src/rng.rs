//! Seeded random number generation for deterministic runs.

use vstd::prelude::*;

use rand::rngs::StdRng;
use rand::seq::SliceRandom;
use rand::{Rng, SeedableRng};

verus! {

/// The seeded generator of the `rand` crate.
#[verifier::external_type_specification]
#[verifier::external_body]
pub struct ExStdRng(StdRng);

/// `StdRng::seed_from_u64`: a generator whose stream is fixed by the seed.
/// Nothing is claimed of its state.
#[verifier::external_body]
fn std_rng_from_seed(seed: u64) -> StdRng {
    StdRng::seed_from_u64(seed)
}

/// `SliceRandom::shuffle` on the vector's slice: a Fisher–Yates shuffle, so
/// the result is a permutation of the input. Which permutation is not stated.
#[verifier::external_body]
fn std_rng_shuffle<T>(rng: &mut StdRng, v: &mut Vec<T>)
    ensures
        final(v)@.len() == old(v)@.len(),
        final(v)@.to_multiset() =~= old(v)@.to_multiset(),
{
    v.as_mut_slice().shuffle(rng);
}

/// `Rng::random_range(min..=max)`: a value of the closed range (the range
/// must not be empty, else it panics). Which value is not stated.
#[verifier::external_body]
fn std_rng_range_inclusive(rng: &mut StdRng, min: i32, max: i32) -> (r: i32)
    requires
        min <= max,
    ensures
        min <= r <= max,
{
    rng.random_range(min..=max)
}

/// `Rng::random::<u64>()`: any u64.
#[verifier::external_body]
fn std_rng_next_u64(rng: &mut StdRng) -> u64 {
    let r: u64 = rng.random();
    r
}

/// A seeded generator that remembers its seed.
#[derive(Debug)]
pub struct GameRng {
    inner: StdRng,
    seed: u64,
}

impl GameRng {
    /// The seed this generator was created with.
    pub closed spec fn spec_seed(&self) -> u64 {
        self.seed
    }

    pub fn new(seed: u64) -> (r: GameRng)
        ensures
            r.spec_seed() == seed,
    {
        GameRng { inner: std_rng_from_seed(seed), seed }
    }

    /// A generator restored from a save: it keeps the saved seed, and its
    /// stream restarts as the stream of seed 0 (saves do not hold the
    /// stream's position).
    pub fn restored(seed: u64) -> (r: GameRng)
        ensures
            r.spec_seed() == seed,
    {
        GameRng { inner: std_rng_from_seed(0), seed }
    }

    pub fn seed(&self) -> (r: u64)
        ensures
            r == self.spec_seed(),
    {
        self.seed
    }

    /// Shuffle a vector in place: the result holds the same elements.
    pub fn shuffle<T>(&mut self, v: &mut Vec<T>)
        ensures
            final(self).spec_seed() == old(self).spec_seed(),
            final(v)@.len() == old(v)@.len(),
            final(v)@.to_multiset() =~= old(v)@.to_multiset(),
    {
        std_rng_shuffle(&mut self.inner, v);
    }

    /// A value of the closed range `min..=max`.
    pub fn range(&mut self, min: i32, max: i32) -> (r: i32)
        requires
            min <= max,
        ensures
            final(self).spec_seed() == old(self).spec_seed(),
            min <= r <= max,
    {
        std_rng_range_inclusive(&mut self.inner, min, max)
    }

    /// Generate a random u64 (useful for deriving sub-seeds).
    pub fn next_u64(&mut self) -> (r: u64)
        ensures
            final(self).spec_seed() == old(self).spec_seed(),
    {
        std_rng_next_u64(&mut self.inner)
    }

    /// An index below `len`, drawn as `range(0, len - 1)`.
    pub(crate) fn index_below(&mut self, len: usize) -> (r: usize)
        requires
            0 < len <= i32::MAX,
        ensures
            final(self).spec_seed() == old(self).spec_seed(),
            r < len,
    {
        let v = self.range(0, (len - 1) as i32);
        v as usize
    }
}

} // verus!
