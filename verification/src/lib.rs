//! A deterministic-simulation test harness: it runs a user-supplied test
//! program many times against pseudo-random but fully reproducible inputs,
//! captures per-iteration failures without skipping cleanup, and reports the
//! exact seed that reproduces any failure.

pub mod arbitrary_util;
pub mod builder;
pub mod random_numbers;
pub mod seed_phrase;
pub mod stream;

pub use builder::{
    DeterministicSimulationArgs, NoOpSetup, PostSuiteTrait, PostTestTrait, PreSuiteTrait,
    PreTestTrait, ProgramTrait, RapidFuzzBuilder, RunReport,
};
pub use seed_phrase::SeedPhrase;
pub use stream::DeterministicStream;
