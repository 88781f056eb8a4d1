//! The seeded pseudo-random source that preview boards are drawn from.
//!
//! The generator is the standard seeded generator of the `rand` crate. For
//! a fixed seed it yields one fixed sequence of booleans, so the sequence
//! is named by the uninterpreted function [`rng_stream`], and a
//! [`PreviewRng`] keeps, next to the generator itself, the seed it was
//! started from and how many booleans it has handed out: that is enough to
//! pin every draw to one position of the named sequence.

use rand::rngs::StdRng;
use rand::Rng;
use rand::SeedableRng;
use vstd::prelude::*;

verus! {

#[verifier::external_type_specification]
#[verifier::external_body]
pub struct ExStdRng(StdRng);

/// The boolean that the standard seeded generator yields at draw position
/// `index` of the sequence started from `seed`.
pub uninterp spec fn rng_stream(seed: u64, index: int) -> bool;

/// A reproducible boolean source: the seeded generator together with the
/// seed it was built from and the number of booleans drawn so far.
pub struct PreviewRng {
    rng: StdRng,
    seed: u64,
    drawn: u64,
}

impl PreviewRng {
    /// The seed the current sequence was started from.
    pub closed spec fn seed(self) -> u64 {
        self.seed
    }

    /// How many booleans have been drawn since the last seeding.
    pub closed spec fn drawn(self) -> u64 {
        self.drawn
    }

    /// How many booleans have been drawn since the last seeding, for
    /// callers outside the proofs.
    pub fn draw_count(&self) -> (n: u64)
        ensures
            n == self.drawn(),
    {
        self.drawn
    }

    /// Relies on `rand::rngs::StdRng` with `SeedableRng::seed_from_u64`:
    /// seeding is a pure function of the seed, so the generator built here
    /// will yield the sequence `rng_stream(seed, 0)`, `rng_stream(seed, 1)`,
    /// and so on.
    #[verifier::external_body]
    pub fn new(seed: u64) -> (r: PreviewRng)
        ensures
            r.seed() == seed,
            r.drawn() == 0,
    {
        PreviewRng { rng: StdRng::seed_from_u64(seed), seed, drawn: 0 }
    }

    /// Relies on `rand::Rng::gen::<bool>` on `StdRng`: the generator is a
    /// deterministic function of its seeded state, so the boolean drawn at
    /// a given position of a given seed's sequence is the one named by
    /// `rng_stream`. The body also advances the draw counter, so the
    /// contract speaks of the position that this very call consumed.
    #[verifier::external_body]
    pub fn next_bool(&mut self) -> (r: bool)
        requires
            old(self).drawn() < u64::MAX,
        ensures
            final(self).seed() == old(self).seed(),
            final(self).drawn() == old(self).drawn() + 1,
            r == rng_stream(old(self).seed(), old(self).drawn() as int),
    {
        let drawn_bool: bool = self.rng.gen();
        self.drawn += 1;
        drawn_bool
    }

    /// Start the sequence over from `seed`: the next draws repeat
    /// `rng_stream(seed, 0)`, `rng_stream(seed, 1)`, and so on.
    pub fn reseed(&mut self, seed: u64)
        ensures
            final(self).seed() == seed,
            final(self).drawn() == 0,
    {
        *self = PreviewRng::new(seed);
    }
}

} // verus!
