use phase1_wasm::bridge::settle_rendezvous;
use phase1_wasm::contribute::ContributionResponse;
use phase1_wasm::errors::ContributionError;
use phase1_wasm::hash::calculate_hash;
use phase1_wasm::parameters::{
    Parameters, expected_challenge_length, required_output_length,
};
use phase1_wasm::selector::{
    CurveKind, ProvingSystemKind, curve_from_str, proving_system_from_str,
};

#[test]
fn curve_tokens_resolve_exactly() {
    assert!(matches!(curve_from_str("bls12_377"), Ok(CurveKind::Bls12_377)));
    assert!(matches!(curve_from_str("bw6"), Ok(CurveKind::BW6)));
    match curve_from_str("bw6_761") {
        Err(ContributionError::UnknownSelector { token }) => assert_eq!(token, "bw6_761"),
        other => panic!("expected an unknown selector, got {:?}", other),
    }
}

#[test]
fn proving_system_tokens_resolve_exactly() {
    assert!(matches!(proving_system_from_str("groth16"), Ok(ProvingSystemKind::Groth16)));
    assert!(matches!(proving_system_from_str("marlin"), Ok(ProvingSystemKind::Marlin)));
    match proving_system_from_str("") {
        Err(ContributionError::UnknownSelector { token }) => assert_eq!(token, ""),
        other => panic!("expected an unknown selector, got {:?}", other),
    }
}

#[test]
fn token_matching_is_case_sensitive() {
    assert!(curve_from_str("BW6").is_err());
    assert!(proving_system_from_str("Groth16").is_err());
}

#[test]
fn buffer_lengths_follow_the_compression_policy() {
    let parameters =
        Parameters { accumulator_size: 640, contribution_size: 416, public_key_size: 128 };
    // Input is uncompressed: the challenge must be a whole accumulator.
    assert_eq!(expected_challenge_length(&parameters), 640);
    // Output is compressed: the response is one compressed contribution.
    assert_eq!(required_output_length(&parameters), 416);
}

#[test]
fn digest_is_blake2b_512_of_the_input() {
    let empty_digest = calculate_hash(&[]);
    let expected: [u8; 64] = [
        0x78, 0x6a, 0x02, 0xf7, 0x42, 0x01, 0x59, 0x03, 0xc6, 0xc6, 0xfd, 0x85, 0x25, 0x52,
        0xd2, 0x72, 0x91, 0x2f, 0x47, 0x40, 0xe1, 0x58, 0x47, 0x61, 0x8a, 0x86, 0xe2, 0x17,
        0xf7, 0x1f, 0x54, 0x19, 0xd2, 0x5e, 0x10, 0x31, 0xaf, 0xee, 0x58, 0x53, 0x13, 0x89,
        0x64, 0x44, 0x93, 0x4e, 0xb0, 0x4b, 0x90, 0x3a, 0x68, 0x5b, 0x14, 0x48, 0xb7, 0x55,
        0xd5, 0x6f, 0x70, 0x1a, 0xfe, 0x9b, 0xe2, 0xce,
    ];
    assert_eq!(empty_digest, expected.to_vec());
}

#[test]
fn digest_depends_on_the_input() {
    let zeros = vec![0u8; 64];
    let digest = calculate_hash(&zeros);
    assert_eq!(digest.len(), 64);
    // A digest that merely echoed its input would be caught here.
    assert_ne!(digest, zeros);
    assert_ne!(calculate_hash(b"a"), calculate_hash(b"b"));
    assert_eq!(calculate_hash(b"a"), calculate_hash(b"a"));
}

#[test]
fn delivered_rendezvous_values_pass_through() {
    let response = ContributionResponse {
        current_accumulator_hash: vec![1u8; 64],
        response: vec![2u8; 96],
        contribution_hash: vec![3u8; 64],
    };
    match settle_rendezvous(Some(Ok(response))) {
        Ok(delivered) => {
            assert_eq!(delivered.current_accumulator_hash, vec![1u8; 64]);
            assert_eq!(delivered.response, vec![2u8; 96]);
            assert_eq!(delivered.contribution_hash, vec![3u8; 64]);
        }
        other => panic!("expected the delivered response, got {:?}", other),
    }

    let failure = settle_rendezvous(Some(Err(ContributionError::ComputationFailure)));
    assert!(matches!(failure, Err(ContributionError::ComputationFailure)));
}

#[test]
fn undelivered_rendezvous_becomes_pool_failure() {
    let settled = settle_rendezvous(None);
    assert!(matches!(settled, Err(ContributionError::PoolConstructionFailure)));
}
