//! The decision half of the worker-pool bridge.
//!
//! In chunked mode the host builds a fixed-size pool of compute lanes,
//! dispatches one contribution as a single unit of work, and blocks on a
//! single-slot rendezvous for its result. Pool construction, lane spawning
//! and the rendezvous itself are host concerns; what this module fixes is
//! the meaning of every rendezvous outcome, so that a work unit that ends
//! without delivering becomes an ordinary error value rather than an
//! indefinite block.

use vstd::prelude::*;
use crate::contribute::ContributionResponse;
use crate::errors::ContributionError;

verus! {

/// Turn the outcome of the single-slot rendezvous into the call's result:
/// a delivered value — success or failure — passes through unchanged, and
/// non-delivery (a lane that failed to start, or a work unit that ended
/// without sending) becomes `PoolConstructionFailure`.
pub fn settle_rendezvous(outcome: Option<Result<ContributionResponse, ContributionError>>) -> (r:
    Result<ContributionResponse, ContributionError>)
    ensures
        match outcome {
            Some(delivered) => r == delivered,
            None => r matches Err(e) && e matches ContributionError::PoolConstructionFailure,
        },
{
    match outcome {
        Some(delivered) => delivered,
        None => Err(ContributionError::PoolConstructionFailure),
    }
}

} // verus!
