//! Capability traits for the external collaborators: the byte-size formulas
//! (parameter deriver) and the cryptographic transformation engine.
//!
//! The host injects implementations of these traits; the orchestration makes
//! no assumption about them beyond their signatures, so everything proved of
//! the orchestration holds for every implementation, deterministic or not.

use vstd::prelude::*;
use crate::parameters::{CheckForCorrectness, ContributionMode, Parameters, UseCompression};
use crate::selector::{CurveKind, ProvingSystemKind};

verus! {

/// The external byte-size formulas: from a curve, a proving system, an
/// exponent, a batch size and a contribution mode to the three byte counts
/// of one call. Derivation is expected to be pure; nothing here depends on
/// that expectation.
pub trait ParameterDeriver {
    fn derive_parameters(
        &self,
        curve: CurveKind,
        proving_system: ProvingSystemKind,
        power: usize,
        batch_size: usize,
        mode: ContributionMode,
    ) -> Parameters;
}

/// The external cryptographic transformation: key-pair derivation from the
/// injected randomness source, the group exponentiations that rewrite the
/// response buffer, and public-key serialization. The key types are the
/// engine's own; a private key never leaves the orchestration call that
/// created it.
pub trait TransformationEngine<PublicKey, PrivateKey> {
    /// Derive a fresh key pair from the engine's randomness source, with
    /// `digest` as domain-separation context.
    fn key_generation(&mut self, digest: &[u8]) -> Result<(PublicKey, PrivateKey), ()>;

    /// Overwrite the prefix of `response` in place with the contribution
    /// computed from `challenge` under `private_key`.
    fn computation(
        &mut self,
        challenge: &[u8],
        response: &mut Vec<u8>,
        compressed_input: UseCompression,
        compressed_output: UseCompression,
        check_input_correctness: CheckForCorrectness,
        private_key: &PrivateKey,
        parameters: &Parameters,
    ) -> Result<(), ()>;

    /// Serialize `public_key` into `response` per the output-compression
    /// policy; on failure the engine's message is returned.
    fn write_public_key(
        &mut self,
        public_key: &PublicKey,
        response: &mut Vec<u8>,
        compressed_output: UseCompression,
        parameters: &Parameters,
    ) -> Result<(), String>;
}

/// Derive the parameters of a full (whole-accumulator) contribution.
pub fn get_parameters_full<D: ParameterDeriver>(
    deriver: &D,
    curve: CurveKind,
    proving_system: ProvingSystemKind,
    power: usize,
    batch_size: usize,
) -> Parameters {
    deriver.derive_parameters(curve, proving_system, power, batch_size, ContributionMode::Full)
}

/// Derive the parameters of a chunked contribution over the window
/// `(chunk_index, chunk_size)`. Whether the caller's windows partition the
/// accumulator without gaps or overlap is a ceremony-coordinator concern:
/// nothing here inspects the window.
pub fn get_parameters_chunked<D: ParameterDeriver>(
    deriver: &D,
    curve: CurveKind,
    proving_system: ProvingSystemKind,
    power: usize,
    batch_size: usize,
    chunk_index: usize,
    chunk_size: usize,
) -> Parameters {
    deriver.derive_parameters(
        curve,
        proving_system,
        power,
        batch_size,
        ContributionMode::Chunked { chunk_index, chunk_size },
    )
}

} // verus!
