//! Negative trait impls for auto traits, written so that a stable compiler
//! accepts them: an `impl !Send for T {}` becomes an impl of `Send` whose
//! where clause can never be satisfied.

pub mod catalog;
pub mod error;
pub mod model;
pub mod synth;
pub mod emit;
pub mod laws;
