//! Why an operation was refused.

use vstd::prelude::*;

verus! {

/// The reason an operation failed. A failed operation changes nothing.
#[derive(Clone, Copy, Debug, PartialEq, Eq, Structural)]
pub enum Error {
    /// The payment asset has already been set.
    AlreadyInitialized,
    /// No payment asset has been set yet.
    NotInitialized,
    /// The caller does not hold the authorisation the operation asks for.
    Unauthorized,
    /// No session has the given id.
    NotFound,
    /// The session has not been marked as attended.
    NotAttended,
    /// The session's payment has already been released.
    AlreadyCompleted,
    /// The payer's balance does not cover the amount.
    InsufficientFunds,
    /// The payment could not be moved for another reason.
    TransferFailed,
}

impl Error {
    /// The words that describe the error.
    pub open spec fn text(self) -> Seq<char> {
        match self {
            Error::AlreadyInitialized => "Contract already initialized"@,
            Error::NotInitialized => "Token not initialized"@,
            Error::Unauthorized => "Caller is not authorized"@,
            Error::NotFound => "Session not found"@,
            Error::NotAttended => "Session must be marked as attended before completion"@,
            Error::AlreadyCompleted => "Session already completed"@,
            Error::InsufficientFunds => "Insufficient funds for the payment"@,
            Error::TransferFailed => "Payment transfer failed"@,
        }
    }

    /// The words that describe the error.
    pub fn message(&self) -> (message: &'static str)
        ensures
            message@ == self.text(),
    {
        match self {
            Error::AlreadyInitialized => "Contract already initialized",
            Error::NotInitialized => "Token not initialized",
            Error::Unauthorized => "Caller is not authorized",
            Error::NotFound => "Session not found",
            Error::NotAttended => "Session must be marked as attended before completion",
            Error::AlreadyCompleted => "Session already completed",
            Error::InsufficientFunds => "Insufficient funds for the payment",
            Error::TransferFailed => "Payment transfer failed",
        }
    }
}

} // verus!
