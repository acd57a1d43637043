//! The injected random source.
//!
//! The one randomized choice in the simulation (the obstacle gap position)
//! is drawn from a [`GameRng`], which wraps the host game library's
//! pseudo-random generator.  Nothing is assumed about the values drawn
//! beyond the documented range bound, so every caller is verified for every
//! possible outcome.

use vstd::prelude::*;

verus! {

/// The outside generator type, opaque to verification.
#[verifier::external_type_specification]
#[verifier::external_body]
pub struct ExRandomNumberGenerator(bracket_lib::random::RandomNumberGenerator);

/// A uniform random source over closed-open integer ranges.
pub struct GameRng {
    inner: bracket_lib::random::RandomNumberGenerator,
}

impl GameRng {
    /// Relies on `bracket_random`'s `RandomNumberGenerator::new`, which
    /// seeds a generator from entropy; nothing is assumed of its state.
    #[verifier::external_body]
    pub fn new() -> (rng: GameRng) {
        GameRng { inner: bracket_lib::random::RandomNumberGenerator::new() }
    }

    /// Relies on `bracket_random`'s `RandomNumberGenerator::seeded`, which
    /// seeds a generator deterministically; nothing is assumed of its state.
    #[verifier::external_body]
    pub fn seeded(seed: u64) -> (rng: GameRng) {
        GameRng { inner: bracket_lib::random::RandomNumberGenerator::seeded(seed) }
    }

    /// Relies on `bracket_random`'s `RandomNumberGenerator::range`, which
    /// returns a value inclusive of `min` and exclusive of `max` and panics
    /// on an empty range.
    #[verifier::external_body]
    pub fn range(&mut self, min: i32, max: i32) -> (r: i32)
        requires
            min < max,
        ensures
            min <= r < max,
    {
        self.inner.range(min, max)
    }
}

} // verus!
