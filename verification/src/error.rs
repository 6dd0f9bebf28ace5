//! The error taxonomy of the escrow program. Every validation failure aborts
//! the whole instruction and surfaces as exactly one of these errors.

use vstd::prelude::*;

verus! {

/// The program's own error codes, surfaced to callers as numeric custom codes.
#[derive(Clone, Copy, Debug, PartialEq, Eq, Structural)]
pub enum EscrowError {
    InvalidInstruction,
    NotRentExempt,
    ExpectedAmountMismatch,
    AmountOverflow,
    Unauthorized,
    EscrowCompleted,
    InsufficientFunds,
    AlreadyApproved,
    CannotCancelAfterApprovals,
    InvalidEscrowAccount,
    InvalidCounterAccount,
}

impl EscrowError {
    /// The numeric code of each error, in declaration order.
    pub open spec fn spec_code(self) -> u32 {
        match self {
            EscrowError::InvalidInstruction => 0,
            EscrowError::NotRentExempt => 1,
            EscrowError::ExpectedAmountMismatch => 2,
            EscrowError::AmountOverflow => 3,
            EscrowError::Unauthorized => 4,
            EscrowError::EscrowCompleted => 5,
            EscrowError::InsufficientFunds => 6,
            EscrowError::AlreadyApproved => 7,
            EscrowError::CannotCancelAfterApprovals => 8,
            EscrowError::InvalidEscrowAccount => 9,
            EscrowError::InvalidCounterAccount => 10,
        }
    }

    /// The numeric custom code under which this error reaches the caller.
    pub fn code(&self) -> (c: u32)
        ensures
            c == self.spec_code(),
    {
        match self {
            EscrowError::InvalidInstruction => 0,
            EscrowError::NotRentExempt => 1,
            EscrowError::ExpectedAmountMismatch => 2,
            EscrowError::AmountOverflow => 3,
            EscrowError::Unauthorized => 4,
            EscrowError::EscrowCompleted => 5,
            EscrowError::InsufficientFunds => 6,
            EscrowError::AlreadyApproved => 7,
            EscrowError::CannotCancelAfterApprovals => 8,
            EscrowError::InvalidEscrowAccount => 9,
            EscrowError::InvalidCounterAccount => 10,
        }
    }
}

/// Everything an instruction can fail with: one of the program's own errors,
/// or one of the conditions the host runtime reports directly.
#[derive(Clone, Copy, Debug, PartialEq, Eq, Structural)]
pub enum ProcessError {
    Escrow(EscrowError),
    MissingRequiredSignature,
    InvalidInstructionData,
    NotEnoughAccountKeys,
    BorshIo,
}

} // verus!
