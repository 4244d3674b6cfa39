//! Seeded, reproducible random number generators: one root generator built
//! from a seed, and one private child generator per consumer derived from it.

pub mod generator;
pub mod plugin;
pub mod rng;
pub mod laws;


pub use plugin::{RngPlugin, Seed};
pub use rng::{RootRng, Rng};
