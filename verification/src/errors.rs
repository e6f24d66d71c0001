//! The reasons for which an instruction is refused.
use vstd::prelude::*;

verus! {

/// Why an instruction was refused. A refused instruction changes nothing.
#[derive(Clone, Copy, Debug, PartialEq, Eq, Structural)]
pub enum ErrorCode {
    /// An overflow, an underflow or a division by zero in the accounting.
    ArithmeticError,
    /// An account would have to grow by more than one reallocation allows.
    InvalidDataIncrease,
    /// A voucher still has inflow that it has not claimed.
    RewardsNotClaimed,
    /// The fanout still has token inflows.
    CannotCloseFanoutWithInflows,
    /// More shares would be issued than the fanout has.
    TotalSharesExceeded,
    /// A condition that an account has to meet does not hold.
    ConstraintRaw,
    /// No address derives from the seeds.
    InvalidSeeds,
    /// The transaction for the scheduler could not be compiled.
    TransactionNotCompiled,
    /// A claim that pays nothing cannot be settled.
    NothingToSettle,
}

impl ErrorCode {
    /// The text that describes this error.
    pub open spec fn message_text(self) -> Seq<char> {
        match self {
            ErrorCode::ArithmeticError => "Error in arithmetic"@,
            ErrorCode::InvalidDataIncrease => "Invalid data increase"@,
            ErrorCode::RewardsNotClaimed => "Rewards not claimed"@,
            ErrorCode::CannotCloseFanoutWithInflows => "Cannot close fanout with active inflows"@,
            ErrorCode::TotalSharesExceeded => "Total shares issued exceeded total shares"@,
            ErrorCode::ConstraintRaw => "A raw constraint was violated"@,
            ErrorCode::InvalidSeeds => "Provided seeds do not result in a valid address"@,
            ErrorCode::TransactionNotCompiled => "Transaction could not be compiled"@,
            ErrorCode::NothingToSettle => "Nothing was paid that could be settled"@,
        }
    }

    /// The text that describes this error.
    pub fn message(&self) -> (r: &'static str)
        ensures
            r@ == self.message_text(),
    {
        match self {
            ErrorCode::ArithmeticError => "Error in arithmetic",
            ErrorCode::InvalidDataIncrease => "Invalid data increase",
            ErrorCode::RewardsNotClaimed => "Rewards not claimed",
            ErrorCode::CannotCloseFanoutWithInflows => "Cannot close fanout with active inflows",
            ErrorCode::TotalSharesExceeded => "Total shares issued exceeded total shares",
            ErrorCode::ConstraintRaw => "A raw constraint was violated",
            ErrorCode::InvalidSeeds => "Provided seeds do not result in a valid address",
            ErrorCode::TransactionNotCompiled => "Transaction could not be compiled",
            ErrorCode::NothingToSettle => "Nothing was paid that could be settled",
        }
    }
}

} // verus!
