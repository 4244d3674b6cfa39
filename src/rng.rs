//! The root generator of a run and the per-consumer generators derived from
//! it, with the integer draws that consumers make.

use vstd::prelude::*;
use rand_xoshiro::Xoshiro256StarStar;
use crate::generator::{
    advance, advance_by, child_of, draw, from_entropy, from_parent, from_text, from_u64,
    next_u32_of, next_u64_of, upper_half, SEED_WORDS,
};
use crate::plugin::{seeded_state, Seed};

verus! {

/// The one generator of a run from which every consumer's generator is
/// derived. Deriving a child advances it.
#[derive(Debug, Clone, PartialEq, Eq)]
pub struct RootRng {
    rng: Xoshiro256StarStar,
}

impl View for RootRng {
    type V = Xoshiro256StarStar;

    closed spec fn view(&self) -> Xoshiro256StarStar {
        self.rng
    }
}

impl RootRng {
    /// Builds the root generator from a seed: a number or a text gives a
    /// state that depends on it alone; no seed gives one drawn from the
    /// operating system's randomness, and aborts where there is none.
    pub fn from_seed(seed: &Option<Seed>) -> (r: RootRng)
        ensures
            match *seed {
                Some(s) => r@ == seeded_state(s),
                None => true,
            },
    {
        let rng = match seed {
            Some(Seed::String(s)) => from_text(s.as_str()),
            Some(Seed::Number(n)) => from_u64(*n),
            None => from_entropy(),
        };
        RootRng { rng }
    }

    /// Derives a new, independent generator from this one. The child is
    /// seeded from the next four 64-bit draws of the root, which are consumed.
    pub fn derive_child(&mut self) -> (r: Rng)
        ensures
            r@ == child_of(old(self)@),
            final(self)@ == advance_by(old(self)@, SEED_WORDS as nat),
    {
        let derived = from_parent(&mut self.rng);
        let inner = derived.unwrap();
        Rng { inner }
    }
}

/// A generator owned by one consumer.
#[derive(Debug, Clone, PartialEq, Eq)]
pub struct Rng {
    inner: Xoshiro256StarStar,
}

impl View for Rng {
    type V = Xoshiro256StarStar;

    closed spec fn view(&self) -> Xoshiro256StarStar {
        self.inner
    }
}

impl Rng {
    /// The generator of a consumer: derived from the root generator where
    /// there is one, else seeded from the operating system's randomness,
    /// which aborts where there is none.
    pub fn from_world(root: &mut Option<RootRng>) -> (r: Rng)
        ensures
            match *old(root) {
                Some(p) => r@ == child_of(p@) && (match *final(root) {
                    Some(q) => q@ == advance_by(p@, SEED_WORDS as nat),
                    None => false,
                }),
                None => *final(root) is None,
            },
    {
        match root {
            Some(p) => p.derive_child(),
            None => Rng { inner: from_entropy() },
        }
    }

    /// A uniform draw over all of `u32`: the upper half of the next 64-bit
    /// draw.
    pub fn next_u32(&mut self) -> (r: u32)
        ensures
            r == upper_half(draw(old(self)@)),
            final(self)@ == advance(old(self)@),
    {
        next_u32_of(&mut self.inner)
    }

    /// A uniform draw over all of `u64`.
    pub fn next_u64(&mut self) -> (r: u64)
        ensures
            r == draw(old(self)@),
            final(self)@ == advance(old(self)@),
    {
        next_u64_of(&mut self.inner)
    }
}

} // verus!
