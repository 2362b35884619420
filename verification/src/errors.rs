//! The error taxonomy: every way an operation can reject a transaction.

use vstd::prelude::*;

verus! {

/// Why an attempted operation was rejected. Each rejection is terminal for
/// the attempt and leaves every record unchanged.
#[derive(Clone, Copy, Debug, PartialEq, Eq, Structural)]
pub enum ErrorCode {
    /// The stake is below the proposition's minimum bet.
    BetTooLow,
    /// The proposition's deadline has passed, or it was already expired.
    DareExpired,
    /// The proposition has already been completed.
    DareAlreadyCompleted,
    /// This ledger entry's claim latch is already set.
    AlreadyClaimed,
    /// The proposition is not yet settleable (or the caller lacks the
    /// authority a finalizing step needs).
    DareNotFinalized,
    /// The computed payout is zero; zero payouts are rejected, not paid.
    NoPayout,
    /// The proposition has not been completed.
    DareNotCompleted,
    /// The caller is not the submitter of this proof, or the proof is not a
    /// winning one.
    NotSubmitter,
    /// The creator fee has already been claimed.
    CreatorFeeAlreadyClaimed,
    /// The early cash-out window after bet placement has elapsed.
    CashOutTooLate,
    /// No proof has been submitted.
    NoProofSubmitted,
    /// The proof has not been approved.
    ProofNotApproved,
    /// The caller lacks the required authority.
    Unauthorized,
    /// The submission cap was reached.
    MaxSubmissionsReached,
    /// The entry's winner rank is not first, second or third.
    InvalidWinnerRank,
    /// Winners were already selected for this proposition.
    WinnersAlreadySelected,
    /// The caller is not the platform authority.
    UnauthorizedPlatformAuthority,
    /// The privileged recovery identity is malformed.
    InvalidDeveloperKey,
    /// Only the privileged recovery identity may drain a pool.
    UnauthorizedEmergencyWithdrawal,
    /// The escrow holds nothing to withdraw.
    EmptyPool,
}

} // verus!
