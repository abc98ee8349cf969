//! The quorum policy: a pure decision over vote counts and a threshold.
use vstd::prelude::*;

verus! {

/// What the quorum policy decides for an intent.
#[derive(Clone, Copy, Debug, PartialEq, Eq, Structural)]
pub enum Decision {
    Approved,
    StillPending,
    Rejected,
}

/// The policy when the set of possible signers is not known: approval once the
/// approvals reach the threshold, and pending otherwise.
pub open spec fn decision_of(approvals: int, threshold: int) -> Decision {
    if approvals >= threshold {
        Decision::Approved
    } else {
        Decision::StillPending
    }
}

/// The policy when the account has `signers` possible signers: besides approval,
/// rejection as soon as the signers that have not rejected cannot reach the threshold.
pub open spec fn decision_with_universe_of(
    approvals: int,
    rejections: int,
    threshold: int,
    signers: int,
) -> Decision {
    if approvals >= threshold {
        Decision::Approved
    } else if signers - rejections < threshold {
        Decision::Rejected
    } else {
        Decision::StillPending
    }
}

/// Decides an intent from its vote counts when the signer universe is unknown.
/// Rejections never veto: the intent stays pending until approved or explicitly rejected.
pub fn evaluate(approvals_count: u64, rejections_count: u64, threshold: u64) -> (r: Decision)
    ensures
        r == decision_of(approvals_count as int, threshold as int),
{
    if approvals_count >= threshold {
        Decision::Approved
    } else {
        Decision::StillPending
    }
}

/// Decides an intent from its vote counts for an account with `signers` possible signers.
pub fn evaluate_with_universe(
    approvals_count: u64,
    rejections_count: u64,
    threshold: u64,
    signers: u64,
) -> (r: Decision)
    ensures
        r == decision_with_universe_of(
            approvals_count as int,
            rejections_count as int,
            threshold as int,
            signers as int,
        ),
{
    if approvals_count >= threshold {
        Decision::Approved
    } else if signers < rejections_count || signers - rejections_count < threshold {
        Decision::Rejected
    } else {
        Decision::StillPending
    }
}

} // verus!
