//! The errors that end an invocation of the crowdfunding program.

use vstd::prelude::*;

verus! {

/// Why an invocation was rejected. Every one is final for the invocation:
/// nothing is retried, and no account is changed.
#[derive(Clone, Copy, Debug, PartialEq, Eq, Hash, Structural)]
pub enum CrowdfundError {
    /// The campaign's storage is not owned by this program.
    WrongOwner,
    /// The acting identity did not authorise the invocation.
    MissingAuthorization,
    /// The instruction bytes name no known operation, or are cut short or
    /// too long.
    InvalidInstruction,
    /// A goal, a duration or an amount of zero.
    InvalidParameters,
    /// The campaign record was never initialised.
    UninitializedCampaign,
    /// The deadline has passed: no more contributions.
    CampaignEnded,
    /// The deadline has not passed yet.
    CampaignStillActive,
    /// The campaign was settled before.
    AlreadyFinalized,
    /// Less than the goal was raised.
    GoalNotReached,
    /// The goal was met, so nothing is refunded.
    GoalWasReached,
    /// The acting identity is not the campaign's owner.
    NotOwner,
    /// The contributor record is not this program's, or holds nothing.
    NothingToRefund,
    /// A sum does not fit in 64 bits.
    ArithmeticOverflow,
    /// The movement of value was refused.
    TransferFailed,
    /// The bytes in an account are not a record of the expected kind.
    MalformedRecord,
    /// The account's buffer cannot hold the record.
    BufferTooSmall,
    /// The current time could not be read.
    TimeSourceUnavailable,
    /// Fewer accounts were supplied than the operation takes.
    ShapeMismatch,
}

/// The fault that a result reports, or `None` for a success.
pub open spec fn fault_of<T>(r: Result<T, CrowdfundError>) -> Option<CrowdfundError> {
    match r {
        Ok(_) => None,
        Err(e) => Some(e),
    }
}

} // verus!
