//! The errors a dispatch can surface to the host.

use vstd::prelude::*;

verus! {

/// The errors this program reports under a numeric code of its own; every
/// other failure is reported under a host-native condition (see
/// [`ProcessError`]).
#[derive(Clone, Copy, Debug, PartialEq, Eq, Structural)]
pub enum EscrowError {
    /// The instruction bytes held a bad tag or a malformed amount operand.
    InvalidInstruction,
    /// The escrow account's balance is too small to be exempt from storage
    /// rent at its current size.
    NotRentExempt,
    /// The custody account's balance differs from the amount the taker's
    /// instruction claims.
    ExpectedAmountMismatch,
    /// Crediting the escrow account's reclaimed balance to the initializer
    /// would overflow the initializer's balance.
    AmountOverflow,
}

impl EscrowError {
    /// The stable numeric code the host surfaces for this error.
    pub open spec fn spec_code(self) -> u32 {
        match self {
            EscrowError::InvalidInstruction => 0,
            EscrowError::NotRentExempt => 1,
            EscrowError::ExpectedAmountMismatch => 2,
            EscrowError::AmountOverflow => 3,
        }
    }

    /// Returns the stable numeric code the host surfaces for this error.
    pub fn code(self) -> (r: u32)
        ensures
            r == self.spec_code(),
    {
        match self {
            EscrowError::InvalidInstruction => 0,
            EscrowError::NotRentExempt => 1,
            EscrowError::ExpectedAmountMismatch => 2,
            EscrowError::AmountOverflow => 3,
        }
    }
}

/// Every way a dispatch can fail: the program's own coded errors together
/// with the host-native conditions.
#[derive(Clone, Copy, Debug, PartialEq, Eq, Structural)]
pub enum ProcessError {
    /// The instruction bytes held a bad tag or a malformed amount operand.
    InvalidInstruction,
    /// The escrow account's balance is too small to be exempt from storage
    /// rent.
    NotRentExempt,
    /// The custody account's balance differs from the amount the taker
    /// expects.
    ExpectedAmountMismatch,
    /// Crediting the reclaimed balance to the initializer would overflow.
    AmountOverflow,
    /// The account that must authorize the transition did not sign.
    MissingSignature,
    /// The receiving account is not owned by the token-custody program.
    WrongOwner,
    /// The escrow record is already populated; an escrow is initialized
    /// exactly once.
    AlreadyInitialized,
    /// A supplied account buffer or identity does not match what the escrow
    /// record demands.
    InvalidAccountData,
    /// The account list is shorter than the transition's positional contract.
    NotEnoughAccountKeys,
    /// The host has no derived authority for this program identity; with the
    /// fixed seed this is statistically unreachable.
    AuthorityUnavailable,
}

impl ProcessError {
    /// The host-level condition that stands for each program-coded error.
    pub open spec fn spec_from_escrow(e: EscrowError) -> ProcessError {
        match e {
            EscrowError::InvalidInstruction => ProcessError::InvalidInstruction,
            EscrowError::NotRentExempt => ProcessError::NotRentExempt,
            EscrowError::ExpectedAmountMismatch => ProcessError::ExpectedAmountMismatch,
            EscrowError::AmountOverflow => ProcessError::AmountOverflow,
        }
    }

    /// Lifts a program-coded error into the dispatch error type.
    pub fn from_escrow(e: EscrowError) -> (r: ProcessError)
        ensures
            r == Self::spec_from_escrow(e),
    {
        match e {
            EscrowError::InvalidInstruction => ProcessError::InvalidInstruction,
            EscrowError::NotRentExempt => ProcessError::NotRentExempt,
            EscrowError::ExpectedAmountMismatch => ProcessError::ExpectedAmountMismatch,
            EscrowError::AmountOverflow => ProcessError::AmountOverflow,
        }
    }
}

} // verus!
