//! Host-facing entry points: resolve the curve and proving-system tokens,
//! derive the sizing parameters, and run one contribution.
//!
//! The full variant contributes to the whole accumulator; the chunked
//! variant to one caller-supplied window of it. In chunked mode the host is
//! expected to run the call on its own pool of compute lanes and to hand the
//! engine a seed-derived deterministic randomness source; both are host
//! concerns, invisible here.

use vstd::prelude::*;
use crate::contribute::{ContributionResponse, contribute_challenge};
use crate::engine::{ParameterDeriver, TransformationEngine, get_parameters_chunked,
    get_parameters_full};
use crate::errors::ContributionError;
use crate::hash::hash_of;
use crate::selector::{curve_from_str, is_curve_token, is_proving_system_token,
    proving_system_from_str};

verus! {

/// Was one call's outcome consistent with the token sets and the hash
/// chain? Shared contract of the full and the chunked entry point: an
/// unmatched token is reported as such, a successful response chains the
/// digests, and a size mismatch reports the actual challenge length.
pub open spec fn entry_outcome_consistent(
    r: Result<ContributionResponse, ContributionError>,
    curve_kind: Seq<char>,
    proving_system: Seq<char>,
    challenge: Seq<u8>,
) -> bool {
    match r {
        Ok(resp) => {
            &&& is_proving_system_token(proving_system)
            &&& is_curve_token(curve_kind)
            &&& resp.current_accumulator_hash@ == hash_of(challenge)
            &&& resp.current_accumulator_hash@.len() == 64
            &&& resp.contribution_hash@ == hash_of(resp.response@)
            &&& resp.contribution_hash@.len() == 64
        },
        Err(e) => match e {
            ContributionError::UnknownSelector { token } => {
                ||| (token@ == proving_system && !is_proving_system_token(proving_system))
                ||| (token@ == curve_kind && is_proving_system_token(proving_system)
                    && !is_curve_token(curve_kind))
            },
            ContributionError::SizeMismatch { expected, actual } => {
                &&& is_proving_system_token(proving_system)
                &&& is_curve_token(curve_kind)
                &&& actual == challenge.len()
                &&& expected != actual
            },
            ContributionError::KeyGenerationFailure => is_proving_system_token(proving_system)
                && is_curve_token(curve_kind),
            ContributionError::ComputationFailure => is_proving_system_token(proving_system)
                && is_curve_token(curve_kind),
            ContributionError::SerializationFailure { message: _ } => is_proving_system_token(
                proving_system,
            ) && is_curve_token(curve_kind),
            ContributionError::PoolConstructionFailure => false,
        },
    }
}

/// The struct the host drives a ceremony step through.
pub struct Phase1WASM {}

impl Phase1WASM {
    /// One contribution to the full accumulator. The host injects the
    /// parameter deriver and a transformation engine whose randomness source
    /// it drew from system entropy.
    pub fn contribute_full<D: ParameterDeriver, PublicKey, PrivateKey, E: TransformationEngine<
        PublicKey,
        PrivateKey,
    >>(
        curve_kind: &str,
        proving_system: &str,
        batch_size: usize,
        power: usize,
        challenge: &[u8],
        deriver: &D,
        engine: &mut E,
    ) -> (r: Result<ContributionResponse, ContributionError>)
        ensures
            entry_outcome_consistent(r, curve_kind@, proving_system@, challenge@),
            !is_proving_system_token(proving_system@) ==> (r matches Err(e)
                && e matches ContributionError::UnknownSelector { token }
                && token@ == proving_system@),
            is_proving_system_token(proving_system@) && !is_curve_token(curve_kind@) ==> (r
                matches Err(e) && e matches ContributionError::UnknownSelector { token }
                && token@ == curve_kind@),
    {
        let proving_system_kind = match proving_system_from_str(proving_system) {
            Ok(kind) => kind,
            Err(e) => {
                return Err(e);
            },
        };
        let curve = match curve_from_str(curve_kind) {
            Ok(kind) => kind,
            Err(e) => {
                return Err(e);
            },
        };
        let parameters = get_parameters_full(deriver, curve, proving_system_kind, power,
            batch_size);
        contribute_challenge(challenge, &parameters, engine)
    }

    /// One contribution to the window `(chunk_index, chunk_size)` of the
    /// accumulator. Whether the caller's windows cover the accumulator
    /// without gap or overlap is not checked here, by design: that invariant
    /// belongs to the external ceremony coordinator, and nothing in this
    /// call inspects the window beyond handing it to the deriver.
    pub fn contribute_chunked<D: ParameterDeriver, PublicKey, PrivateKey, E: TransformationEngine<
        PublicKey,
        PrivateKey,
    >>(
        curve_kind: &str,
        proving_system: &str,
        batch_size: usize,
        power: usize,
        chunk_index: usize,
        chunk_size: usize,
        challenge: &[u8],
        deriver: &D,
        engine: &mut E,
    ) -> (r: Result<ContributionResponse, ContributionError>)
        ensures
            entry_outcome_consistent(r, curve_kind@, proving_system@, challenge@),
            !is_proving_system_token(proving_system@) ==> (r matches Err(e)
                && e matches ContributionError::UnknownSelector { token }
                && token@ == proving_system@),
            is_proving_system_token(proving_system@) && !is_curve_token(curve_kind@) ==> (r
                matches Err(e) && e matches ContributionError::UnknownSelector { token }
                && token@ == curve_kind@),
    {
        let proving_system_kind = match proving_system_from_str(proving_system) {
            Ok(kind) => kind,
            Err(e) => {
                return Err(e);
            },
        };
        let curve = match curve_from_str(curve_kind) {
            Ok(kind) => kind,
            Err(e) => {
                return Err(e);
            },
        };
        let parameters = get_parameters_chunked(deriver, curve, proving_system_kind, power,
            batch_size, chunk_index, chunk_size);
        contribute_challenge(challenge, &parameters, engine)
    }
}

} // verus!
