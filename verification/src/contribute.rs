//! The contribution orchestration: validate the challenge, chain the
//! digests, pre-fill the response buffer, and drive the transformation
//! engine through one contribution.
//!
//! The sequence is strictly: length check, accumulator digest, deterministic
//! pre-fill, key generation, transformation, key serialization, contribution
//! digest. No step is retried; the first failure aborts the call with its
//! error value and no partial result.

use vstd::prelude::*;
use crate::engine::TransformationEngine;
use crate::errors::ContributionError;
use crate::hash::{calculate_hash, hash_of};
use crate::parameters::{
    CHECK_INPUT_CORRECTNESS, COMPRESSED_INPUT, COMPRESSED_OUTPUT, Parameters,
    expected_challenge_length, required_output_length, spec_expected_challenge_length,
    spec_required_output_length,
};

verus! {

/// What one successful contribution hands back to the host: the digest of
/// the incoming challenge, the response bytes, and the digest of those
/// final response bytes.
#[derive(Debug)]
pub struct ContributionResponse {
    pub current_accumulator_hash: Vec<u8>,
    pub response: Vec<u8>,
    pub contribution_hash: Vec<u8>,
}

/// The state after the deterministic steps of a contribution: the challenge
/// digest, and the response buffer pre-filled from it, ready for the
/// transformation engine to rewrite in place.
#[derive(Debug)]
pub struct PreparedContribution {
    pub current_accumulator_hash: Vec<u8>,
    pub response: Vec<u8>,
}

/// The placeholder contents of the response buffer before the engine runs:
/// `len` bytes of `digest`, repeated cyclically.
pub open spec fn prefill(digest: Seq<u8>, len: int) -> Seq<u8> {
    Seq::new(len as nat, |i: int| digest[i % (digest.len() as int)])
}

/// The deterministic opening of a contribution: reject a challenge of the
/// wrong length, otherwise compute its digest and pre-fill a response buffer
/// of exactly the required output length by cyclic repetition of that
/// digest. This fixes the buffer's final length before the engine mutates
/// its prefix in place.
pub fn prepare_contribution(challenge: &[u8], parameters: &Parameters) -> (r: Result<
    PreparedContribution,
    ContributionError,
>)
    ensures
        match r {
            Ok(prepared) => {
                &&& challenge@.len() == spec_expected_challenge_length(*parameters)
                &&& prepared.current_accumulator_hash@ == hash_of(challenge@)
                &&& prepared.current_accumulator_hash@.len() == 64
                &&& prepared.response@ == prefill(
                    hash_of(challenge@),
                    spec_required_output_length(*parameters),
                )
            },
            Err(e) => {
                &&& challenge@.len() != spec_expected_challenge_length(*parameters)
                &&& e matches ContributionError::SizeMismatch { expected, actual }
                    && expected == spec_expected_challenge_length(*parameters)
                    && actual == challenge@.len()
            },
        },
{
    let expected: usize = expected_challenge_length(parameters);
    if challenge.len() != expected {
        return Err(ContributionError::SizeMismatch { expected, actual: challenge.len() });
    }

    let required: usize = required_output_length(parameters);
    let current_accumulator_hash = calculate_hash(challenge);
    let digest_length: usize = current_accumulator_hash.len();

    let mut response: Vec<u8> = Vec::new();
    let mut i: usize = 0;
    while i < required
        invariant
            i <= required,
            digest_length == 64,
            current_accumulator_hash@ == hash_of(challenge@),
            current_accumulator_hash@.len() == 64,
            response@.len() == i,
            forall|j: int| 0 <= j < i ==> response@[j] == current_accumulator_hash@[j % 64],
            required == spec_required_output_length(*parameters),
        decreases required - i,
    {
        let byte = current_accumulator_hash[i % digest_length];
        response.push(byte);
        i = i + 1;
    }

    proof {
        assert(response@ =~= prefill(
            hash_of(challenge@),
            spec_required_output_length(*parameters),
        ));
    }
    Ok(PreparedContribution { current_accumulator_hash, response })
}

/// The close of a contribution: digest the final response bytes — after the
/// engine's rewrite and the key serialization — and assemble the three-field
/// result. The contribution digest is always computed over exactly the bytes
/// handed back.
pub fn finalize_contribution(current_accumulator_hash: Vec<u8>, response: Vec<u8>) -> (r:
    ContributionResponse)
    ensures
        r.current_accumulator_hash@ == current_accumulator_hash@,
        r.response@ == response@,
        r.contribution_hash@ == hash_of(response@),
        r.contribution_hash@.len() == 64,
{
    let contribution_hash = calculate_hash(response.as_slice());
    ContributionResponse { current_accumulator_hash, response, contribution_hash }
}

/// One whole contribution on already-derived parameters: steps one through
/// nine of the orchestration, with the key pair and the buffer rewrite
/// delegated to the injected engine.
///
/// The hash chain holds on every success: the returned accumulator digest is
/// the digest of the challenge, and the returned contribution digest is the
/// digest of the returned response bytes. A challenge of the wrong length is
/// rejected up front, reporting both lengths, and only then; the remaining
/// errors each name the engine step that refused, and can only arise once
/// the length check has passed.
pub fn contribute_challenge<PublicKey, PrivateKey, E: TransformationEngine<
    PublicKey,
    PrivateKey,
>>(challenge: &[u8], parameters: &Parameters, engine: &mut E) -> (r: Result<
    ContributionResponse,
    ContributionError,
>)
    ensures
        match r {
            Ok(resp) => {
                &&& challenge@.len() == spec_expected_challenge_length(*parameters)
                &&& resp.current_accumulator_hash@ == hash_of(challenge@)
                &&& resp.current_accumulator_hash@.len() == 64
                &&& resp.contribution_hash@ == hash_of(resp.response@)
                &&& resp.contribution_hash@.len() == 64
            },
            Err(e) => match e {
                ContributionError::SizeMismatch { expected, actual } => {
                    &&& challenge@.len() != spec_expected_challenge_length(*parameters)
                    &&& expected == spec_expected_challenge_length(*parameters)
                    &&& actual == challenge@.len()
                },
                ContributionError::KeyGenerationFailure => challenge@.len()
                    == spec_expected_challenge_length(*parameters),
                ContributionError::ComputationFailure => challenge@.len()
                    == spec_expected_challenge_length(*parameters),
                ContributionError::SerializationFailure { message: _ } => challenge@.len()
                    == spec_expected_challenge_length(*parameters),
                ContributionError::UnknownSelector { token: _ } => false,
                ContributionError::PoolConstructionFailure => false,
            },
        },
{
    let prepared = match prepare_contribution(challenge, parameters) {
        Ok(prepared) => prepared,
        Err(e) => {
            return Err(e);
        },
    };
    let current_accumulator_hash = prepared.current_accumulator_hash;
    let mut response = prepared.response;

    let (public_key, private_key) = match engine.key_generation(
        current_accumulator_hash.as_slice(),
    ) {
        Ok(pair) => pair,
        Err(_) => {
            return Err(ContributionError::KeyGenerationFailure);
        },
    };

    match engine.computation(
        challenge,
        &mut response,
        COMPRESSED_INPUT,
        COMPRESSED_OUTPUT,
        CHECK_INPUT_CORRECTNESS,
        &private_key,
        parameters,
    ) {
        Ok(_) => {},
        Err(_) => {
            return Err(ContributionError::ComputationFailure);
        },
    }

    match engine.write_public_key(&public_key, &mut response, COMPRESSED_OUTPUT, parameters) {
        Ok(_) => {},
        Err(message) => {
            return Err(ContributionError::SerializationFailure { message });
        },
    }

    Ok(finalize_contribution(current_accumulator_hash, response))
}

/// Determinism of the orchestration's own steps: for one fixed challenge and
/// one fixed set of parameters, two runs agree on the accumulator digest and
/// on the pre-filled response buffer, and two runs whose final response
/// bytes agree also agree on the contribution digest. The only sources of
/// variation left in a contribution are therefore the injected randomness
/// source and the injected engine; with both deterministic, two calls yield
/// byte-identical results.
pub proof fn lemma_contribution_deterministic(
    challenge: Seq<u8>,
    parameters: Parameters,
    first_hash: Seq<u8>,
    first_prefill: Seq<u8>,
    first_response: Seq<u8>,
    second_hash: Seq<u8>,
    second_prefill: Seq<u8>,
    second_response: Seq<u8>,
)
    requires
        first_hash == hash_of(challenge),
        second_hash == hash_of(challenge),
        first_prefill == prefill(hash_of(challenge), spec_required_output_length(parameters)),
        second_prefill == prefill(hash_of(challenge), spec_required_output_length(parameters)),
        first_response == second_response,
    ensures
        first_hash == second_hash,
        first_prefill == second_prefill,
        hash_of(first_response) == hash_of(second_response),
{
}

} // verus!
