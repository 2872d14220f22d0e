//! Generates an assembly program that evolves a fixed-length byte vector by
//! pure table lookup, plans the non-overlapping memory image it commits to,
//! and models the bounded emulator run that samples the vector once per
//! generation.

pub mod codegen;
pub mod errors;
pub mod evolve;
pub mod harness;
pub mod layout;
pub mod preprocess;
pub mod sampler;
pub mod tables;
pub mod text;
