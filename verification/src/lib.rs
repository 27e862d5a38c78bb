//! One step of a multi-party "powers-of-tau"-style trusted-setup ceremony:
//! given a prior ceremony state (the challenge), produce the next state (the
//! response) together with the integrity digests binding input and output.
//!
//! The elliptic-curve arithmetic that performs the actual transformation, the
//! byte-size formulas that turn a proving system and an exponent into buffer
//! sizes, and the randomness sources are external collaborators: they are
//! reached through capability traits, so that the orchestration logic here is
//! specified and checked for every behaviour of those collaborators.

pub mod api;
pub mod bridge;
pub mod contribute;
pub mod engine;
pub mod errors;
pub mod hash;
pub mod parameters;
pub mod selector;
