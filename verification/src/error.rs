use vstd::prelude::*;

verus! {

/// The program's own reasons to refuse an instruction.
#[derive(Clone, Copy, Debug, PartialEq, Eq, Structural)]
pub enum ErrorCode {
    InvalidAuthority,
    InvalidQuoteAge,
    ZeroAmount,
    Paused,
    InvalidCurve,
    InvalidExpiry,
    Math,
    QuoteMismatch,
    Expired,
    Slippage,
    Reserve,
    PositionMismatch,
    Status,
}

/// Why an instruction was refused: an account relation that the instruction
/// declares does not hold, or a rule of the program failed.
#[derive(Clone, Copy, Debug, PartialEq, Eq, Structural)]
pub enum InstructionError {
    /// An account is not the one that the configuration names for it.
    ConstraintHasOne,
    /// A token account does not hold the required mint or has another owner.
    ConstraintRaw,
    /// A rule of the program refused the instruction.
    Program(ErrorCode),
}

/// The number under which the first program error is reported.
pub const ERROR_CODE_OFFSET: u32 = 6000;

/// Position of an error in the declaration of `ErrorCode`.
pub open spec fn error_index(e: ErrorCode) -> nat {
    match e {
        ErrorCode::InvalidAuthority => 0,
        ErrorCode::InvalidQuoteAge => 1,
        ErrorCode::ZeroAmount => 2,
        ErrorCode::Paused => 3,
        ErrorCode::InvalidCurve => 4,
        ErrorCode::InvalidExpiry => 5,
        ErrorCode::Math => 6,
        ErrorCode::QuoteMismatch => 7,
        ErrorCode::Expired => 8,
        ErrorCode::Slippage => 9,
        ErrorCode::Reserve => 10,
        ErrorCode::PositionMismatch => 11,
        ErrorCode::Status => 12,
    }
}

/// The text that explains an error to the user.
pub open spec fn error_message(e: ErrorCode) -> Seq<char> {
    match e {
        ErrorCode::InvalidAuthority => "Invalid authority or protocol address"@,
        ErrorCode::InvalidQuoteAge => "Quote age must be 15-300 seconds"@,
        ErrorCode::ZeroAmount => "Amount must be nonzero"@,
        ErrorCode::Paused => "Deposits are paused"@,
        ErrorCode::InvalidCurve => "Invalid Pump.fun bonding curve"@,
        ErrorCode::InvalidExpiry => "Invalid quote expiry"@,
        ErrorCode::Math => "Arithmetic overflow"@,
        ErrorCode::QuoteMismatch => "Quote does not match"@,
        ErrorCode::Expired => "Quote expired"@,
        ErrorCode::Slippage => "Minimum output not met"@,
        ErrorCode::Reserve => "Insufficient reward reserve"@,
        ErrorCode::PositionMismatch => "Position mismatch"@,
        ErrorCode::Status => "Invalid position status"@,
    }
}

impl ErrorCode {
    /// The number under which the error is reported: the offset plus its
    /// position in the declaration.
    pub fn code(&self) -> (n: u32)
        ensures
            n == ERROR_CODE_OFFSET + error_index(*self),
    {
        match self {
            ErrorCode::InvalidAuthority => 6000,
            ErrorCode::InvalidQuoteAge => 6001,
            ErrorCode::ZeroAmount => 6002,
            ErrorCode::Paused => 6003,
            ErrorCode::InvalidCurve => 6004,
            ErrorCode::InvalidExpiry => 6005,
            ErrorCode::Math => 6006,
            ErrorCode::QuoteMismatch => 6007,
            ErrorCode::Expired => 6008,
            ErrorCode::Slippage => 6009,
            ErrorCode::Reserve => 6010,
            ErrorCode::PositionMismatch => 6011,
            ErrorCode::Status => 6012,
        }
    }

    /// The text that explains the error.
    pub fn message(&self) -> (s: &'static str)
        ensures
            s@ == error_message(*self),
    {
        match self {
            ErrorCode::InvalidAuthority => "Invalid authority or protocol address",
            ErrorCode::InvalidQuoteAge => "Quote age must be 15-300 seconds",
            ErrorCode::ZeroAmount => "Amount must be nonzero",
            ErrorCode::Paused => "Deposits are paused",
            ErrorCode::InvalidCurve => "Invalid Pump.fun bonding curve",
            ErrorCode::InvalidExpiry => "Invalid quote expiry",
            ErrorCode::Math => "Arithmetic overflow",
            ErrorCode::QuoteMismatch => "Quote does not match",
            ErrorCode::Expired => "Quote expired",
            ErrorCode::Slippage => "Minimum output not met",
            ErrorCode::Reserve => "Insufficient reward reserve",
            ErrorCode::PositionMismatch => "Position mismatch",
            ErrorCode::Status => "Invalid position status",
        }
    }
}

} // verus!
