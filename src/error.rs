use vstd::prelude::*;

verus! {

/// Every way a settlement can fail. Each one aborts the whole settlement.
#[derive(Clone, Copy, Debug, PartialEq, Eq, Structural)]
pub enum ErrorCode {
    /// The current time is past the request's deadline.
    Expired,
    /// The swap venue did not fill the swap.
    SwapFailed,
    /// The destination balance did not grow across the swap.
    ReconciliationInvalid,
    /// A distribution transfer could not be completed.
    TransferFailed,
    /// A fee or net amount does not fit the integer type.
    ArithmeticOverflow,
}

impl ErrorCode {
    /// A human-readable description of the error.
    pub fn message(&self) -> String {
        match self {
            ErrorCode::Expired => "The payment has expired.".to_string(),
            ErrorCode::SwapFailed => "The swap did not succeed.".to_string(),
            ErrorCode::ReconciliationInvalid => {
                "The destination balance did not grow across the swap.".to_string()
            },
            ErrorCode::TransferFailed => "A distribution transfer failed.".to_string(),
            ErrorCode::ArithmeticOverflow => "Fee arithmetic overflowed.".to_string(),
        }
    }
}

} // verus!
