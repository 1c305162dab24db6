use vstd::prelude::*;

verus! {

/// Why an operation on a payment request or a scheduled charge was refused.
///
/// Every refusal aborts the whole operation: the record it was aimed at is left
/// as it was.
#[derive(Clone, Copy, Debug, PartialEq, Eq, Structural)]
pub enum BlinkPayError {
    /// Payment request is not pending
    PaymentRequestNotPending,
    /// Payment request has already been paid
    PaymentRequestAlreadyPaid,
    /// Payment request has been cancelled
    PaymentRequestCancelled,
    /// Insufficient funds for payment
    InsufficientFunds,
    /// Invalid token mint provided
    InvalidTokenMint,
    /// Scheduled charge is not pending
    ScheduledChargeNotPending,
    /// Scheduled charge has already been executed
    ScheduledChargeAlreadyExecuted,
    /// Scheduled charge has been cancelled
    ScheduledChargeCancelled,
    /// Scheduled charge execution time has not been reached
    ExecutionTimeNotReached,
    /// Scheduled charge has exceeded maximum executions
    MaxExecutionsExceeded,
    /// Invalid authority for this operation
    InvalidAuthority,
    /// Invalid recipient address
    InvalidRecipient,
    /// Amount must be greater than zero
    InvalidAmount,
    /// Invalid timestamp provided
    InvalidTimestamp,
    /// Invalid interval for recurring charge
    InvalidInterval,
    /// Arithmetic overflow occurred
    Overflow,
    /// Memo too long (max 200 characters)
    MemoTooLong,
    /// Token account not owned by expected owner
    InvalidTokenAccountOwner,
    /// Associated token account mismatch
    InvalidAssociatedTokenAccount,
}

} // verus!
