//! The seed a run starts from, and the plugin that turns it into the root
//! generator.

use vstd::prelude::*;
use rand_xoshiro::Xoshiro256StarStar;
use crate::generator::{xoshiro_from_text, xoshiro_from_u64};
use crate::rng::RootRng;

verus! {

/// A seed for the root generator: a number, or a text of any length (the
/// empty text included).
#[derive(Debug, Clone, PartialEq, Eq, Hash, PartialOrd, Ord)]
pub enum Seed {
    Number(u64),
    String(String),
}

/// The state that a root generator built from `seed` starts in.
pub open spec fn seeded_state(seed: Seed) -> Xoshiro256StarStar {
    match seed {
        Seed::Number(n) => xoshiro_from_u64(n),
        Seed::String(s) => xoshiro_from_text(s@),
    }
}

/// Holds the seed of a run, if any, and builds the root generator from it.
/// Without a seed the root generator is seeded from the operating system's
/// randomness, and two runs are not expected to agree.
#[derive(Debug, Clone, Default, PartialEq, Eq, Hash, PartialOrd, Ord)]
pub struct RngPlugin {
    pub seed: Option<Seed>,
}

impl RngPlugin {
    /// Builds the root generator of a run from the seed. Without a seed it
    /// reads the operating system's randomness, and aborts where there is
    /// none.
    pub fn build(&self) -> (r: RootRng)
        ensures
            match self.seed {
                Some(s) => r@ == seeded_state(s),
                None => true,
            },
    {
        RootRng::from_seed(&self.seed)
    }
}

impl From<u64> for RngPlugin {
    fn from(seed: u64) -> (r: Self) {
        RngPlugin { seed: Some(Seed::Number(seed)) }
    }
}

impl vstd::std_specs::convert::FromSpecImpl<u64> for RngPlugin {
    open spec fn obeys_from_spec() -> bool {
        true
    }

    open spec fn from_spec(v: u64) -> Self {
        RngPlugin { seed: Some(Seed::Number(v)) }
    }
}

impl From<String> for RngPlugin {
    fn from(seed: String) -> (r: Self) {
        RngPlugin { seed: Some(Seed::String(seed)) }
    }
}

impl vstd::std_specs::convert::FromSpecImpl<String> for RngPlugin {
    open spec fn obeys_from_spec() -> bool {
        true
    }

    open spec fn from_spec(v: String) -> Self {
        RngPlugin { seed: Some(Seed::String(v)) }
    }
}

impl<'a> From<&'a str> for RngPlugin {
    fn from(seed: &'a str) -> (r: Self)
        ensures
            r.seed matches Some(Seed::String(s)) && s@ == seed@,
    {
        RngPlugin::from_text(seed)
    }
}

impl RngPlugin {
    /// A plugin holding the text seed `seed`; the empty text is a seed too,
    /// distinct from none.
    pub fn from_text(seed: &str) -> (r: Self)
        ensures
            r.seed matches Some(Seed::String(s)) && s@ == seed@,
    {
        RngPlugin { seed: Some(Seed::String(seed.to_owned())) }
    }
}

impl<'a> vstd::std_specs::convert::FromSpecImpl<&'a str> for RngPlugin {
    open spec fn obeys_from_spec() -> bool {
        false
    }

    open spec fn from_spec(v: &'a str) -> Self {
        RngPlugin { seed: Some(Seed::String(choose|s: String| s@ == v@)) }
    }
}

} // verus!
