//! The failures a pool operation can report.

use vstd::prelude::*;

verus! {

/// Domain errors of the pool operations. A failed asset transfer is not among
/// them: it reaches the caller as the host reported it.
#[derive(Clone, Copy, Debug, PartialEq, Eq, Structural)]
pub enum ErrorCode {
    /// The computed swap output is below the caller's floor.
    SlippageExceeded,
    /// The presented capability does not carry the identity the action asks for.
    Unauthorized,
    /// The fee is not below the fee scale.
    InvalidFee,
    /// No pool record exists at the given location.
    NotFound,
    /// A pool record already exists at the given location.
    AlreadyExists,
}

/// The text that describes each error.
pub open spec fn message_of(code: ErrorCode) -> Seq<char> {
    match code {
        ErrorCode::SlippageExceeded => "The output amount is less than the minimum required due to slippage."@,
        ErrorCode::Unauthorized => "The presented capability does not match the required identity."@,
        ErrorCode::InvalidFee => "The fee must be less than 1000."@,
        ErrorCode::NotFound => "No pool exists at the given location."@,
        ErrorCode::AlreadyExists => "A pool already exists at the given location."@,
    }
}

impl ErrorCode {
    /// A description of the error for the caller.
    pub fn message(&self) -> (text: &'static str)
        ensures
            text@ == message_of(*self),
    {
        match self {
            ErrorCode::SlippageExceeded => "The output amount is less than the minimum required due to slippage.",
            ErrorCode::Unauthorized => "The presented capability does not match the required identity.",
            ErrorCode::InvalidFee => "The fee must be less than 1000.",
            ErrorCode::NotFound => "No pool exists at the given location.",
            ErrorCode::AlreadyExists => "A pool already exists at the given location.",
        }
    }
}

} // verus!
