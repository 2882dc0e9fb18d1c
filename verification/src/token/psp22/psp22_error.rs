use vstd::prelude::*;

use crate::math::MathError;

verus! {

/// Errors of PSP22 operations.
#[derive(Debug, PartialEq, Eq, Clone)]
pub enum PSP22Error {
    /// Custom error type for cases the standard does not name.
    Custom(String),
    /// Returned if not enough balance to fulfill a request is available.
    InsufficientBalance,
    /// Returned if not enough allowance to fulfill a request is available.
    InsufficientAllowance,
    /// Returned if recipient's address is zero.
    ZeroRecipientAddress,
    /// Returned if sender's address is zero.
    ZeroSenderAddress,
    /// Returned if a safe transfer check fails.
    SafeTransferCheckFailed(String),
    /// Returned if a permit signature is invalid.
    PermitInvalidSignature,
    /// Returned if a permit has expired.
    PermitExpired,
}

/// The message that stands for an arithmetic error in a `Custom` error.
pub open spec fn math_error_message(e: MathError) -> Seq<char> {
    match e {
        MathError::Overflow => "M::Overflow"@,
        MathError::Underflow => "M::Underflow"@,
        MathError::DivByZero => "M::DivByZero"@,
    }
}

/// `e` is the error that the arithmetic error `m` converts to.
pub open spec fn is_math_error(e: PSP22Error, m: MathError) -> bool {
    e matches PSP22Error::Custom(s) && s@ == math_error_message(m)
}

/// `r` is the error that the arithmetic error `m` converts to.
pub open spec fn fails_with_math<T>(r: Result<T, PSP22Error>, m: MathError) -> bool {
    r matches Err(e) && is_math_error(e, m)
}

/// The text of an arithmetic error.
pub fn math_error_text(e: MathError) -> (s: String)
    ensures
        s@ == math_error_message(e),
{
    match e {
        MathError::Overflow => "M::Overflow".to_owned(),
        MathError::Underflow => "M::Underflow".to_owned(),
        MathError::DivByZero => "M::DivByZero".to_owned(),
    }
}

impl PSP22Error {
    /// The PSP22 error an arithmetic error converts to: a `Custom` error
    /// naming it.
    pub fn from_math_error(e: MathError) -> (r: PSP22Error)
        ensures
            is_math_error(r, e),
    {
        PSP22Error::Custom(math_error_text(e))
    }
}

} // verus!
