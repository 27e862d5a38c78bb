//! Sizing parameters of one contribution, and the fixed compression policy.
//!
//! The byte-size formulas that produce a [`Parameters`] value from a proving
//! system, an exponent and a batch size belong to an external collaborator;
//! this module only fixes what the orchestration reads from them: the three
//! byte counts, and the two compression flags that decide which of those
//! counts govern the input and the output buffer.

use vstd::prelude::*;

verus! {

/// Whether a serialized accumulator is in compressed form.
#[derive(Clone, Copy, Debug, PartialEq, Eq, Structural)]
pub enum UseCompression {
    Yes,
    No,
}

/// Whether deserialized group elements are checked for correctness.
#[derive(Clone, Copy, Debug, PartialEq, Eq, Structural)]
pub enum CheckForCorrectness {
    Yes,
    No,
}

/// Policy baked into this orchestration: the challenge arrives uncompressed.
pub const COMPRESSED_INPUT: UseCompression = UseCompression::No;

/// Policy baked into this orchestration: the response leaves compressed.
pub const COMPRESSED_OUTPUT: UseCompression = UseCompression::Yes;

/// Policy baked into this orchestration: input correctness checks are skipped.
pub const CHECK_INPUT_CORRECTNESS: CheckForCorrectness = CheckForCorrectness::No;

/// Whether one call contributes to the full accumulator or only to a window
/// of it.
#[derive(Clone, Copy, Debug, PartialEq, Eq, Structural)]
pub enum ContributionMode {
    Full,
    Chunked { chunk_index: usize, chunk_size: usize },
}

/// The three byte counts that the parameter deriver fixes for one call.
/// They are never mutated after derivation.
#[derive(Clone, Copy, Debug, PartialEq, Eq, Structural)]
pub struct Parameters {
    /// Size in bytes of the uncompressed accumulator.
    pub accumulator_size: usize,
    /// Size in bytes of a compressed contribution, public key included.
    pub contribution_size: usize,
    /// Size in bytes of the serialized public key.
    pub public_key_size: usize,
}

/// The length the challenge buffer must have, fixed by the input-compression
/// policy.
pub open spec fn spec_expected_challenge_length(parameters: Parameters) -> int {
    match COMPRESSED_INPUT {
        UseCompression::Yes => parameters.contribution_size as int,
        UseCompression::No => parameters.accumulator_size as int,
    }
}

/// The length the response buffer is given, fixed by the output-compression
/// policy.
pub open spec fn spec_required_output_length(parameters: Parameters) -> int {
    match COMPRESSED_OUTPUT {
        UseCompression::Yes => parameters.contribution_size as int,
        UseCompression::No => parameters.accumulator_size + parameters.public_key_size,
    }
}

/// The length the challenge buffer must have for these parameters.
pub fn expected_challenge_length(parameters: &Parameters) -> (n: usize)
    ensures
        n == spec_expected_challenge_length(*parameters),
{
    match COMPRESSED_INPUT {
        UseCompression::Yes => parameters.contribution_size,
        UseCompression::No => parameters.accumulator_size,
    }
}

/// The length the response buffer is given for these parameters.
pub fn required_output_length(parameters: &Parameters) -> (n: usize)
    ensures
        n == spec_required_output_length(*parameters),
{
    match COMPRESSED_OUTPUT {
        UseCompression::Yes => parameters.contribution_size,
        UseCompression::No => parameters.accumulator_size + parameters.public_key_size,
    }
}

} // verus!
