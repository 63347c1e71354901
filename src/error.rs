use vstd::prelude::*;

verus! {

/// The failures that the escrow handlers define themselves.
#[derive(Clone, Copy, Debug, PartialEq, Eq, Structural)]
pub enum ErrorCode {
    /// The signer is not the owner recorded in the escrow.
    UnauthorizedUser,
    /// A reward was claimed before the session was marked complete.
    SessionNotCompleted,
}

impl ErrorCode {
    /// The human-readable message of the error.
    pub fn message(&self) -> (r: &'static str)
        ensures
            *self == ErrorCode::UnauthorizedUser ==> r@ == "Unauthorized user"@,
            *self == ErrorCode::SessionNotCompleted ==> r@ == "Session not completed"@,
    {
        match self {
            ErrorCode::UnauthorizedUser => "Unauthorized user",
            ErrorCode::SessionNotCompleted => "Session not completed",
        }
    }
}

/// Why an operation was rejected. Whatever the reason, a rejected operation
/// leaves every account it was given unchanged.
#[derive(Clone, Copy, Debug, PartialEq, Eq, Structural)]
pub enum ProgramError {
    /// One of the escrow's own checks failed.
    Custom(ErrorCode),
    /// An escrow record already occupies the address being initialized.
    AccountAlreadyInitialized,
    /// An account holds fewer lamports than it is asked to pay out.
    InsufficientFunds,
    /// Crediting an account would take its balance past `u64::MAX`.
    ArithmeticOverflow,
}

} // verus!
