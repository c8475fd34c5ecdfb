//! Seed corpus generation: choose how the initial seeds of a test corpus are
//! obtained, then materialize them as named entries of a seed location.

pub mod generator;
pub mod laws;
pub mod naming;
pub mod strategy;

pub use generator::{location_given, Generation, Generator, GeneratorError, SeedWrite};
pub use naming::{decimal, seed_name};
pub use strategy::{default_gen_algo, GenAlgo, GenAlgoType, SeedLoc};
