use vstd::prelude::*;

verus! {

/// Why a request was refused.
#[derive(Clone, Copy, Debug, PartialEq, Eq, Structural)]
pub enum ErrorCode {
    /// The venue program account is not the venue.
    InvalidDexPid,
    /// The instruction is not one the proxy handles.
    InvalidInstruction,
    /// The instruction could not be decoded.
    CannotUnpack,
    /// Proceeds of a settlement go to another address than the configured one.
    InvalidReferral,
    /// The caller did not sign the request.
    UnauthorizedUser,
    /// Fewer accounts than the request kind needs.
    NotEnoughAccounts,
    /// The system program account is not the system program.
    InvalidSystemProgram,
    /// The rent account is not the rent sysvar.
    InvalidSysvar,
    /// An account does not hold the address that its seeds give.
    InvalidSeeds,
    /// No bump from 255 down to 1 gives an address off the curve.
    NoViableBump,
}

impl ErrorCode {
    /// A fixed message for each error.
    pub fn message(&self) -> (r: &'static str) {
        match self {
            ErrorCode::InvalidDexPid => "Program ID does not match the Serum DEX",
            ErrorCode::InvalidInstruction => "Invalid instruction given",
            ErrorCode::CannotUnpack => "Could not unpack the instruction",
            ErrorCode::InvalidReferral => "Invalid referral address given",
            ErrorCode::UnauthorizedUser => "The user didn't sign",
            ErrorCode::NotEnoughAccounts => "Not enough accounts were provided",
            ErrorCode::InvalidSystemProgram => "Program ID does not match the system program",
            ErrorCode::InvalidSysvar => "The rent account is not the rent sysvar",
            ErrorCode::InvalidSeeds => "An account does not match its seeds",
            ErrorCode::NoViableBump => "No bump gives an address off the curve",
        }
    }
}

} // verus!
