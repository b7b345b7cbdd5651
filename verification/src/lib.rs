//! Judging of submitted programs: a sandbox host, an output comparator and a
//! verdict engine.

pub mod attempt;
pub mod error;
pub mod evaluation;
pub mod judge;
pub mod laws;
pub mod meter;
pub mod model;
pub mod outcome;
pub mod submission;
pub mod text;
pub mod verdict;
pub mod wasm;
pub mod wasm_runner;
