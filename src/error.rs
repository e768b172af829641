use vstd::prelude::*;

verus! {

/// Failures that the program reports to its caller.
#[derive(Debug, Clone, Copy, PartialEq, Eq, Structural)]
pub enum ErrorCode {
    InvalidAccountOwner,
    InvalidProgramOwner,
    AlreadyInUse,
    InvalidRemainingAccounts,
    InvalidAccountState,
    InvalidATA,
    InvalidName,
    InvalidSymbol,
    InvalidUri,
    InvalidGroupAddress,
    InvalidAmount,
    InvalidSequence,
}

impl ErrorCode {
    /// The message shown for this error.
    pub fn message(&self) -> (r: &'static str) {
        match self {
            ErrorCode::InvalidAccountOwner => "Invalid account owner",
            ErrorCode::InvalidProgramOwner => "Invalid program owner",
            ErrorCode::AlreadyInUse => "Provided mint address is already in use",
            ErrorCode::InvalidRemainingAccounts => "Five sources are supported as now",
            ErrorCode::InvalidAccountState => "Invalid Account State",
            ErrorCode::InvalidATA => "ATA is invalid",
            ErrorCode::InvalidName => "Name is invaid",
            ErrorCode::InvalidSymbol => "Symbol is invaid",
            ErrorCode::InvalidUri => "Uri is invalid",
            ErrorCode::InvalidGroupAddress => "Provided address is not group address",
            ErrorCode::InvalidAmount => "Amount is invalid",
            ErrorCode::InvalidSequence => "Extensions must each be initialized once, before the base state",
        }
    }
}

/// A failure of an instruction: one of the program's own, or one that the ledger
/// program reported, by its code.
#[derive(Debug, Clone, Copy, PartialEq, Eq, Structural)]
pub enum Failure {
    Program(ErrorCode),
    Ledger(u64),
}

} // verus!
