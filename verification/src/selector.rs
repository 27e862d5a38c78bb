//! Token selection: case-sensitive exact match of string tokens against the
//! closed sets of curves and proving systems.
//!
//! An unmatched token is an ordinary recoverable error, not an abort: the
//! caller gets [`ContributionError::UnknownSelector`] carrying the token.

use vstd::prelude::*;
use crate::errors::ContributionError;

verus! {

/// The curves a contribution can be made on.
#[derive(Clone, Copy, Debug, PartialEq, Eq, Structural)]
pub enum CurveKind {
    Bls12_377,
    BW6,
}

/// The proving systems a contribution can target.
#[derive(Clone, Copy, Debug, PartialEq, Eq, Structural)]
pub enum ProvingSystemKind {
    Groth16,
    Marlin,
}

/// Does `token` name a curve of the closed set?
pub open spec fn is_curve_token(token: Seq<char>) -> bool {
    token == "bls12_377"@ || token == "bw6"@
}

/// Does `token` name a proving system of the closed set?
pub open spec fn is_proving_system_token(token: Seq<char>) -> bool {
    token == "groth16"@ || token == "marlin"@
}

/// Exact string equality, stated over the character sequences.
fn str_eq(a: &str, b: &str) -> (r: bool)
    ensures
        r == (a@ == b@),
{
    let a_owned: String = a.to_owned();
    let b_owned: String = b.to_owned();
    a_owned == b_owned
}

/// Resolve a curve token, case-sensitively, against the closed set.
pub fn curve_from_str(token: &str) -> (r: Result<CurveKind, ContributionError>)
    ensures
        token@ == "bls12_377"@ ==> r == Ok::<CurveKind, ContributionError>(CurveKind::Bls12_377),
        token@ == "bw6"@ ==> r == Ok::<CurveKind, ContributionError>(CurveKind::BW6),
        !is_curve_token(token@) ==> (r matches Err(e)
            && e matches ContributionError::UnknownSelector { token: t }
            && t@ == token@),
        r is Ok <==> is_curve_token(token@),
{
    proof {
        reveal_strlit("bls12_377");
        reveal_strlit("bw6");
        assert("bls12_377"@.len() == 9);
        assert("bw6"@.len() == 3);
    }
    if str_eq(token, "bls12_377") {
        Ok(CurveKind::Bls12_377)
    } else if str_eq(token, "bw6") {
        Ok(CurveKind::BW6)
    } else {
        Err(ContributionError::UnknownSelector { token: token.to_owned() })
    }
}

/// Resolve a proving-system token, case-sensitively, against the closed set.
pub fn proving_system_from_str(token: &str) -> (r: Result<ProvingSystemKind, ContributionError>)
    ensures
        token@ == "groth16"@ ==> r == Ok::<ProvingSystemKind, ContributionError>(
            ProvingSystemKind::Groth16,
        ),
        token@ == "marlin"@ ==> r == Ok::<ProvingSystemKind, ContributionError>(
            ProvingSystemKind::Marlin,
        ),
        !is_proving_system_token(token@) ==> (r matches Err(e)
            && e matches ContributionError::UnknownSelector { token: t }
            && t@ == token@),
        r is Ok <==> is_proving_system_token(token@),
{
    proof {
        reveal_strlit("groth16");
        reveal_strlit("marlin");
        assert("groth16"@.len() == 7);
        assert("marlin"@.len() == 6);
    }
    if str_eq(token, "groth16") {
        Ok(ProvingSystemKind::Groth16)
    } else if str_eq(token, "marlin") {
        Ok(ProvingSystemKind::Marlin)
    } else {
        Err(ContributionError::UnknownSelector { token: token.to_owned() })
    }
}

} // verus!
