//! The deposit vault: a program-owned balance holder.
//!
//! The vault is created once at its derived address with a zero balance,
//! grows by deposits and shrinks by withdrawals, and its balance never goes
//! below zero. Every operation validates before it mutates: on any failure
//! the vault and the payer are left exactly as they were.

use crate::bytes_eq;
use crate::derivation::{derivation_of, verify_derived_address};
use crate::errors::EscrowError;
use vstd::prelude::*;

verus! {

/// Program-owned vault storage: the held balance and the bump seed that,
/// together with the fixed seed label, fixes the vault's derived address.
#[derive(Clone, Copy, Debug, PartialEq, Eq, Structural)]
pub struct VaultAccount {
    pub balance: u64,
    pub bump: u8,
}

/// What `initialize` owes for every input: the fresh vault and the payer's
/// remaining funds, or the one error kind its validation raises.
///
/// A vault that already exists at the address is never reset; the claimed
/// address and bump must equal the canonical derivation; the payer signs
/// and funds the rent-exemption minimum.
pub open spec fn spec_initialize(
    vault: Option<VaultAccount>,
    payer_balance: u64,
    payer_signed: bool,
    seed: Seq<u8>,
    program_id: Seq<u8>,
    vault_address: Seq<u8>,
    bump: u8,
    rent_minimum: u64,
) -> Result<(VaultAccount, u64), EscrowError> {
    if vault is Some {
        Err(EscrowError::InvalidInstruction)
    } else if !payer_signed {
        Err(EscrowError::InvalidInstruction)
    } else if derivation_of(seed, program_id) != Some((vault_address, bump)) {
        Err(EscrowError::InvalidInstruction)
    } else if payer_balance < rent_minimum {
        Err(EscrowError::NotRentExempt)
    } else {
        Ok((VaultAccount { balance: 0, bump }, (payer_balance - rent_minimum) as u64))
    }
}

/// Creates the vault at its derived address with a zero balance, funding the
/// rent-exemption minimum from the payer. `vault` is the storage at the
/// claimed address: `None` until an initialization succeeds.
pub fn initialize(
    vault: &mut Option<VaultAccount>,
    payer_balance: &mut u64,
    payer_signed: bool,
    seed: &Vec<u8>,
    program_id: &Vec<u8>,
    vault_address: &Vec<u8>,
    bump: u8,
    rent_minimum: u64,
) -> (r: Result<(), EscrowError>)
    requires
        program_id@.len() == 32,
    ensures
        (match spec_initialize(
            *old(vault),
            *old(payer_balance),
            payer_signed,
            seed@,
            program_id@,
            vault_address@,
            bump,
            rent_minimum,
        ) {
            Ok(outcome) => r is Ok && *final(vault) == Some(outcome.0)
                && *final(payer_balance) == outcome.1,
            Err(e) => r == Err::<(), EscrowError>(e) && *final(vault) == *old(vault)
                && *final(payer_balance) == *old(payer_balance),
        }),
        r is Ok ==> ((*final(vault)) matches Some(v) && v.balance == 0 && v.bump == bump),
        (*old(vault)) is Some ==> r == Err::<(), EscrowError>(EscrowError::InvalidInstruction)
            && *final(vault) == *old(vault),
{
    if vault.is_some() {
        return Err(EscrowError::InvalidInstruction);
    }
    if !payer_signed {
        return Err(EscrowError::InvalidInstruction);
    }
    if !verify_derived_address(seed, program_id, vault_address, bump) {
        return Err(EscrowError::InvalidInstruction);
    }
    if *payer_balance < rent_minimum {
        return Err(EscrowError::NotRentExempt);
    }
    *payer_balance = *payer_balance - rent_minimum;
    *vault = Some(VaultAccount { balance: 0, bump });
    Ok(())
}

/// What `deposit` owes for every input: the grown vault and the payer's
/// remaining funds, or the one error kind its validation raises.
///
/// The vault must exist and stand at the address derived from the seed and
/// its stored bump; a sum past the balance's capacity is an overflow; the
/// payer signs, moves a positive amount, and has the funds for it.
pub open spec fn spec_deposit(
    vault: Option<VaultAccount>,
    payer_balance: u64,
    payer_signed: bool,
    seed: Seq<u8>,
    program_id: Seq<u8>,
    vault_address: Seq<u8>,
    amount: u64,
) -> Result<(VaultAccount, u64), EscrowError> {
    if vault is None {
        Err(EscrowError::InvalidInstruction)
    } else if vault->Some_0.balance + amount > u64::MAX {
        Err(EscrowError::AmountOverflow)
    } else if !payer_signed {
        Err(EscrowError::InvalidInstruction)
    } else if derivation_of(seed, program_id) != Some((vault_address, vault->Some_0.bump)) {
        Err(EscrowError::InvalidInstruction)
    } else if amount == 0 {
        Err(EscrowError::InvalidInstruction)
    } else if payer_balance < amount {
        Err(EscrowError::ExpectedAmountMismatch)
    } else {
        Ok((
            VaultAccount {
                balance: (vault->Some_0.balance + amount) as u64,
                bump: vault->Some_0.bump,
            },
            (payer_balance - amount) as u64,
        ))
    }
}

/// Moves `amount` from the payer into the vault, after checking that the
/// vault stands at the address derived from the seed and its stored bump.
/// Debit and credit happen together: on any failure both balances are left
/// exactly as they were.
pub fn deposit(
    vault: &mut Option<VaultAccount>,
    payer_balance: &mut u64,
    payer_signed: bool,
    seed: &Vec<u8>,
    program_id: &Vec<u8>,
    vault_address: &Vec<u8>,
    amount: u64,
) -> (r: Result<(), EscrowError>)
    requires
        program_id@.len() == 32,
    ensures
        (match spec_deposit(
            *old(vault),
            *old(payer_balance),
            payer_signed,
            seed@,
            program_id@,
            vault_address@,
            amount,
        ) {
            Ok(outcome) => r is Ok && *final(vault) == Some(outcome.0)
                && *final(payer_balance) == outcome.1,
            Err(e) => r == Err::<(), EscrowError>(e) && *final(vault) == *old(vault)
                && *final(payer_balance) == *old(payer_balance),
        }),
        // a successful deposit grows the balance by exactly the amount
        r is Ok ==> (*final(vault))->Some_0.balance
            == (*old(vault))->Some_0.balance + amount
            && *final(payer_balance) + amount == *old(payer_balance)
            && (*final(vault))->Some_0.bump == (*old(vault))->Some_0.bump,
        // a deposit that would overflow the balance fails as an overflow
        // and changes nothing
        ((*old(vault)) matches Some(v) && v.balance + amount > u64::MAX)
            ==> r == Err::<(), EscrowError>(EscrowError::AmountOverflow)
                && *final(vault) == *old(vault)
                && *final(payer_balance) == *old(payer_balance),
        r is Err ==> *final(vault) == *old(vault)
            && *final(payer_balance) == *old(payer_balance),
{
    match *vault {
        None => Err(EscrowError::InvalidInstruction),
        Some(v) => {
            if amount > u64::MAX - v.balance {
                return Err(EscrowError::AmountOverflow);
            }
            if !payer_signed {
                return Err(EscrowError::InvalidInstruction);
            }
            if !verify_derived_address(seed, program_id, vault_address, v.bump) {
                return Err(EscrowError::InvalidInstruction);
            }
            if amount == 0 {
                return Err(EscrowError::InvalidInstruction);
            }
            if *payer_balance < amount {
                return Err(EscrowError::ExpectedAmountMismatch);
            }
            *payer_balance = *payer_balance - amount;
            *vault = Some(VaultAccount { balance: v.balance + amount, bump: v.bump });
            Ok(())
        },
    }
}

/// What `withdraw` owes for every input: the shrunk vault and the
/// recipient's grown funds, or the one error kind its validation raises.
///
/// The vault must exist and hold at least the amount; the authority signs
/// and is the recognized owner; the amount is positive and the credit must
/// not overflow the recipient.
pub open spec fn spec_withdraw(
    vault: Option<VaultAccount>,
    recipient_balance: u64,
    authority: Seq<u8>,
    authority_signed: bool,
    owner: Seq<u8>,
    amount: u64,
) -> Result<(VaultAccount, u64), EscrowError> {
    if vault is None {
        Err(EscrowError::InvalidInstruction)
    } else if amount > vault->Some_0.balance {
        Err(EscrowError::ExpectedAmountMismatch)
    } else if !authority_signed || authority != owner {
        Err(EscrowError::InvalidInstruction)
    } else if amount == 0 {
        Err(EscrowError::InvalidInstruction)
    } else if recipient_balance + amount > u64::MAX {
        Err(EscrowError::AmountOverflow)
    } else {
        Ok((
            VaultAccount {
                balance: (vault->Some_0.balance - amount) as u64,
                bump: vault->Some_0.bump,
            },
            (recipient_balance + amount) as u64,
        ))
    }
}

/// Moves `amount` from the vault to the recipient, on the signed request of
/// the recognized owner. Debit and credit happen together: on any failure
/// both balances are left exactly as they were, and the balance never goes
/// below zero.
pub fn withdraw(
    vault: &mut Option<VaultAccount>,
    recipient_balance: &mut u64,
    authority: &Vec<u8>,
    authority_signed: bool,
    owner: &Vec<u8>,
    amount: u64,
) -> (r: Result<(), EscrowError>)
    ensures
        (match spec_withdraw(
            *old(vault),
            *old(recipient_balance),
            authority@,
            authority_signed,
            owner@,
            amount,
        ) {
            Ok(outcome) => r is Ok && *final(vault) == Some(outcome.0)
                && *final(recipient_balance) == outcome.1,
            Err(e) => r == Err::<(), EscrowError>(e) && *final(vault) == *old(vault)
                && *final(recipient_balance) == *old(recipient_balance),
        }),
        // a successful withdrawal shrinks the balance by exactly the amount
        // and never takes it below zero
        r is Ok ==> (*final(vault))->Some_0.balance + amount
            == (*old(vault))->Some_0.balance
            && amount <= (*old(vault))->Some_0.balance
            && *final(recipient_balance) == *old(recipient_balance) + amount
            && (*final(vault))->Some_0.bump == (*old(vault))->Some_0.bump,
        // a withdrawal past the balance fails as an amount mismatch and
        // changes nothing
        ((*old(vault)) matches Some(v) && amount > v.balance)
            ==> r == Err::<(), EscrowError>(EscrowError::ExpectedAmountMismatch)
                && *final(vault) == *old(vault)
                && *final(recipient_balance) == *old(recipient_balance),
        r is Err ==> *final(vault) == *old(vault)
            && *final(recipient_balance) == *old(recipient_balance),
{
    match *vault {
        None => Err(EscrowError::InvalidInstruction),
        Some(v) => {
            if amount > v.balance {
                return Err(EscrowError::ExpectedAmountMismatch);
            }
            if !authority_signed || !bytes_eq(authority, owner) {
                return Err(EscrowError::InvalidInstruction);
            }
            if amount == 0 {
                return Err(EscrowError::InvalidInstruction);
            }
            if amount > u64::MAX - *recipient_balance {
                return Err(EscrowError::AmountOverflow);
            }
            *recipient_balance = *recipient_balance + amount;
            *vault = Some(VaultAccount { balance: v.balance - amount, bump: v.bump });
            Ok(())
        },
    }
}

} // verus!
