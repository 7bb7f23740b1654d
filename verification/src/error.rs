use vstd::prelude::*;

verus! {

/// Reasons an operation on a treasury ledger or a vesting schedule fails.
/// Every failure is reported before any state is written, so a failed
/// operation has no effect.
#[derive(Clone, Copy, Debug, PartialEq, Eq, Structural)]
pub enum TokenVestingError {
    /// Only the owner can perform this action.
    NotOwner,
    /// End time must be after start time.
    InvalidTimeRange,
    /// Vesting period has not started yet.
    VestingNotStarted,
    /// Insufficient vested amount available to claim.
    InsufficientVestedAmount,
    /// Beneficiary does not match the employee vesting account.
    BeneficiaryMismatch,
    /// Not authorized to perform this action.
    NotAuthorized,
    /// Invalid vesting schedule parameters.
    InvalidVestingSchedule,
    /// Invalid amount for vesting.
    InvalidAmount,
}

} // verus!
