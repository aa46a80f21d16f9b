use vstd::prelude::*;

verus! {

/// Failure taxonomy of the campaign lifecycle operations. Every operation
/// aborts on the first violated precondition and reports exactly one of
/// these; no error is ever swallowed.
#[derive(Clone, Copy, Debug, PartialEq, Eq, Structural)]
pub enum ErrorCode {
    /// Checked arithmetic failed: an addition would overflow `u64`, or a
    /// subtraction would underflow it.
    AmountOverflow,
    /// A milestone index at or beyond the end of the milestone list.
    InvalidMilestoneIndex,
    /// A release was attempted on a milestone that no verifier has certified.
    MilestoneNotCompleted,
    /// The debited account's balance is below the requested movement.
    InsufficientFunds,
    /// The caller's identity does not match the one the operation demands.
    Unauthorized,
}

} // verus!
