//! The error taxonomy of a contribution call.
//!
//! Every failure mode of the orchestration is a variant here and is returned
//! as a value; rendering to a single message string is left to the outermost
//! host boundary.

use vstd::prelude::*;

verus! {

/// Why a contribution call failed.
#[derive(Debug)]
pub enum ContributionError {
    /// The challenge buffer does not have the length the parameters demand
    /// (step one of the orchestration); both lengths are reported.
    SizeMismatch { expected: usize, actual: usize },
    /// The transformation engine could not derive a key pair.
    KeyGenerationFailure,
    /// The transformation engine could not compute the contribution.
    ComputationFailure,
    /// The public key could not be written into the response buffer; the
    /// engine's own message is carried along.
    SerializationFailure { message: String },
    /// A curve or proving-system token matched nothing in the closed set.
    UnknownSelector { token: String },
    /// A compute lane failed to start, or the pool's work unit ended without
    /// delivering a result.
    PoolConstructionFailure,
}

} // verus!
