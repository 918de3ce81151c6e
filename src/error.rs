use vstd::prelude::*;

verus! {

/// The ways in which an escrow workflow can fail.
#[derive(Clone, Copy, Debug, PartialEq, Eq, Structural)]
pub enum EscrowError {
    /// Overflow, division by zero, or a narrowing cast that would lose information.
    ArithmeticError,
    /// The reserve's spendable balance is below the per-schedule floor.
    InsufficientFunds,
    /// A derived address or authority does not match the account presented.
    AuthorityMismatch,
    /// The delegated schedule still holds a balance.
    ScheduleNotClosed,
    /// The input custody account has not been drained.
    UnexpectedResidualBalance,
    /// The record was already closed; its outcome is never overwritten.
    AlreadyCompleted,
}

} // verus!
