//! The closed set of failure kinds the program can surface.

use solana_program::program_error::ProgramError;
use vstd::prelude::*;

verus! {

/// The host runtime's generic error type, opaque to the verifier: the
/// library only wraps its own numeric codes into it.
#[verifier::external_type_specification]
#[verifier::external_body]
pub struct ExProgramError(ProgramError);

/// Every validation failure of the vault and escrow operations maps to
/// exactly one of these kinds. Each kind carries a stable numeric code,
/// given by [`EscrowError::code`], for cross-boundary matching.
#[derive(Clone, Copy, Debug, PartialEq, Eq, Structural)]
pub enum EscrowError {
    /// The request is malformed or unauthorized: a missing signature, a
    /// zero amount, a wrong derived address or bump, a vault that does not
    /// exist, one that already does, or a status that admits no transition.
    InvalidInstruction,
    /// The payer cannot fund the rent-exemption minimum of a new account.
    NotRentExempt,
    /// An amount does not match what is available or expected: a withdrawal
    /// beyond the balance, a deposit beyond the payer's funds, or an escrow
    /// payment that differs from the agreed amount.
    ExpectedAmountMismatch,
    /// Applying the amount would overflow a balance.
    AmountOverflow,
    /// The current slot is already past the escrow's deadline.
    EscrowTimeout,
    /// The current slot is still before the escrow's deadline.
    EscrowUnlockTime,
}

/// The stable numeric code of each error kind.
pub open spec fn spec_code(e: EscrowError) -> u32 {
    match e {
        EscrowError::InvalidInstruction => 0u32,
        EscrowError::NotRentExempt => 1u32,
        EscrowError::ExpectedAmountMismatch => 2u32,
        EscrowError::AmountOverflow => 3u32,
        EscrowError::EscrowTimeout => 4u32,
        EscrowError::EscrowUnlockTime => 5u32,
    }
}

/// The human-readable message of each error kind.
pub open spec fn spec_message(e: EscrowError) -> Seq<char> {
    match e {
        EscrowError::InvalidInstruction => "Invalid Instruction"@,
        EscrowError::NotRentExempt => "Not rent exempt"@,
        EscrowError::ExpectedAmountMismatch => "Expected amount mismatch"@,
        EscrowError::AmountOverflow => "Amount overflow"@,
        EscrowError::EscrowTimeout => "Current slot greater than Escrow Timeout"@,
        EscrowError::EscrowUnlockTime => "Current slot lesser than Escrow Unlock time"@,
    }
}

impl EscrowError {
    /// The stable numeric code of this kind.
    pub fn code(&self) -> (r: u32)
        ensures
            r == spec_code(*self),
    {
        match self {
            EscrowError::InvalidInstruction => 0u32,
            EscrowError::NotRentExempt => 1u32,
            EscrowError::ExpectedAmountMismatch => 2u32,
            EscrowError::AmountOverflow => 3u32,
            EscrowError::EscrowTimeout => 4u32,
            EscrowError::EscrowUnlockTime => 5u32,
        }
    }

    /// The human-readable message of this kind.
    pub fn message(&self) -> (r: &'static str)
        ensures
            r@ == spec_message(*self),
    {
        match self {
            EscrowError::InvalidInstruction => "Invalid Instruction",
            EscrowError::NotRentExempt => "Not rent exempt",
            EscrowError::ExpectedAmountMismatch => "Expected amount mismatch",
            EscrowError::AmountOverflow => "Amount overflow",
            EscrowError::EscrowTimeout => "Current slot greater than Escrow Timeout",
            EscrowError::EscrowUnlockTime => "Current slot lesser than Escrow Unlock time",
        }
    }

    /// The host runtime's representation of this kind:
    /// `ProgramError::Custom` holding [`EscrowError::code`].
    pub fn to_program_error(&self) -> (r: ProgramError)
        ensures
            r == custom_of(spec_code(*self)),
    {
        custom_program_error(self.code())
    }
}

/// What `ProgramError::Custom` holds for one code: the host runtime's error
/// value carrying that program-defined code, a function of the code alone.
pub uninterp spec fn custom_of(code: u32) -> ProgramError;

/// Relies on `ProgramError::Custom` of `solana-program`: wraps a program's
/// own numeric code into the host runtime's generic error type, a pure
/// constructor of its argument alone.
#[verifier::external_body]
fn custom_program_error(code: u32) -> (r: ProgramError)
    ensures
        r == custom_of(code),
{
    ProgramError::Custom(code)
}

/// Distinct kinds carry distinct codes, so a caller can match on the code
/// alone without losing which kind was raised.
pub proof fn lemma_codes_distinct(a: EscrowError, b: EscrowError)
    ensures
        spec_code(a) == spec_code(b) ==> a == b,
{
}

} // verus!
