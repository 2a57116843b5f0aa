//! The escrow state machine: a pending exchange with a slot deadline.
//!
//! An escrow is created pending, with a fixed amount that is never
//! renegotiated. Its status moves one way: the counterparty completes it
//! before the deadline by paying the agreed amount, the initializer cancels
//! it, or anyone marks it expired once the deadline has passed. A completed,
//! cancelled or expired escrow never changes again.

use crate::bytes_eq;
use crate::errors::EscrowError;
use vstd::prelude::*;

verus! {

/// Where an escrow stands. `Pending` is the only status that admits a
/// transition.
#[derive(Clone, Copy, Debug, PartialEq, Eq, Structural)]
pub enum EscrowStatus {
    Pending,
    Completed,
    Cancelled,
    Expired,
}

/// A pending exchange: who opened it, who may complete it (if fixed), the
/// amount expected, and the slot past which it can only expire.
#[derive(Debug)]
pub struct EscrowState {
    pub initializer: Vec<u8>,
    pub counterparty: Option<Vec<u8>>,
    pub amount: u64,
    pub deadline_slot: u64,
    pub status: EscrowStatus,
}

/// What `complete` owes: the escrow completed, or the one error kind its
/// validation raises. Only a pending escrow completes, only by its fixed
/// counterparty (when one is fixed), only up to the deadline, and only for
/// exactly the agreed amount.
pub open spec fn spec_complete(
    escrow: EscrowState,
    caller: Seq<u8>,
    caller_signed: bool,
    amount_paid: u64,
    current_slot: u64,
) -> Result<EscrowState, EscrowError> {
    if escrow.status != EscrowStatus::Pending {
        Err(EscrowError::InvalidInstruction)
    } else if !caller_signed {
        Err(EscrowError::InvalidInstruction)
    } else if escrow.counterparty matches Some(c) && c@ != caller {
        Err(EscrowError::InvalidInstruction)
    } else if current_slot > escrow.deadline_slot {
        Err(EscrowError::EscrowTimeout)
    } else if amount_paid != escrow.amount {
        Err(EscrowError::ExpectedAmountMismatch)
    } else {
        Ok(EscrowState { status: EscrowStatus::Completed, ..escrow })
    }
}

/// What `cancel` owes: the escrow cancelled, or the one error kind its
/// validation raises. Only the initializer, signing, cancels a pending
/// escrow.
pub open spec fn spec_cancel(
    escrow: EscrowState,
    caller: Seq<u8>,
    caller_signed: bool,
) -> Result<EscrowState, EscrowError> {
    if escrow.status != EscrowStatus::Pending {
        Err(EscrowError::InvalidInstruction)
    } else if !caller_signed || caller != escrow.initializer@ {
        Err(EscrowError::InvalidInstruction)
    } else {
        Ok(EscrowState { status: EscrowStatus::Cancelled, ..escrow })
    }
}

/// What `mark_expired` owes: the escrow expired, or the one error kind its
/// validation raises. A pending escrow expires once the current slot is
/// past its deadline; earlier, the request comes before the unlock time.
pub open spec fn spec_mark_expired(
    escrow: EscrowState,
    current_slot: u64,
) -> Result<EscrowState, EscrowError> {
    if escrow.status != EscrowStatus::Pending {
        Err(EscrowError::InvalidInstruction)
    } else if current_slot <= escrow.deadline_slot {
        Err(EscrowError::EscrowUnlockTime)
    } else {
        Ok(EscrowState { status: EscrowStatus::Expired, ..escrow })
    }
}

/// Opens an escrow: pending, with the amount fixed from here on.
pub fn create_escrow(
    initializer: Vec<u8>,
    counterparty: Option<Vec<u8>>,
    amount: u64,
    deadline_slot: u64,
    initializer_signed: bool,
) -> (r: Result<EscrowState, EscrowError>)
    ensures
        r is Ok <==> initializer_signed && amount > 0,
        r matches Ok(e) ==> e.initializer == initializer && e.counterparty == counterparty
            && e.amount == amount && e.deadline_slot == deadline_slot
            && e.status == EscrowStatus::Pending,
        !initializer_signed ==> r == Err::<EscrowState, EscrowError>(
            EscrowError::InvalidInstruction,
        ),
        initializer_signed && amount == 0 ==> r == Err::<EscrowState, EscrowError>(
            EscrowError::InvalidInstruction,
        ),
{
    if !initializer_signed {
        return Err(EscrowError::InvalidInstruction);
    }
    if amount == 0 {
        return Err(EscrowError::InvalidInstruction);
    }
    Ok(EscrowState {
        initializer,
        counterparty,
        amount,
        deadline_slot,
        status: EscrowStatus::Pending,
    })
}

/// Completes a pending escrow: the counterparty, signing, pays exactly the
/// agreed amount at or before the deadline. On any failure the escrow is
/// left exactly as it was.
pub fn complete(
    escrow: &mut EscrowState,
    caller: &Vec<u8>,
    caller_signed: bool,
    amount_paid: u64,
    current_slot: u64,
) -> (r: Result<(), EscrowError>)
    ensures
        (match spec_complete(*old(escrow), caller@, caller_signed, amount_paid, current_slot) {
            Ok(e) => r is Ok && *final(escrow) == e,
            Err(err) => r == Err::<(), EscrowError>(err) && *final(escrow) == *old(escrow),
        }),
        // the agreed amount is never renegotiated
        final(escrow).amount == old(escrow).amount,
        old(escrow).status != EscrowStatus::Pending ==> r is Err
            && *final(escrow) == *old(escrow),
        r is Ok ==> final(escrow).status == EscrowStatus::Completed,
{
    if !matches!(escrow.status, EscrowStatus::Pending) {
        return Err(EscrowError::InvalidInstruction);
    }
    if !caller_signed {
        return Err(EscrowError::InvalidInstruction);
    }
    let party_matches = match &escrow.counterparty {
        Some(c) => bytes_eq(c, caller),
        None => true,
    };
    if !party_matches {
        return Err(EscrowError::InvalidInstruction);
    }
    if current_slot > escrow.deadline_slot {
        return Err(EscrowError::EscrowTimeout);
    }
    if amount_paid != escrow.amount {
        return Err(EscrowError::ExpectedAmountMismatch);
    }
    escrow.status = EscrowStatus::Completed;
    Ok(())
}

/// Cancels a pending escrow on the signed request of its initializer. On
/// any failure the escrow is left exactly as it was.
pub fn cancel(
    escrow: &mut EscrowState,
    caller: &Vec<u8>,
    caller_signed: bool,
) -> (r: Result<(), EscrowError>)
    ensures
        (match spec_cancel(*old(escrow), caller@, caller_signed) {
            Ok(e) => r is Ok && *final(escrow) == e,
            Err(err) => r == Err::<(), EscrowError>(err) && *final(escrow) == *old(escrow),
        }),
        final(escrow).amount == old(escrow).amount,
        old(escrow).status != EscrowStatus::Pending ==> r is Err
            && *final(escrow) == *old(escrow),
        r is Ok ==> final(escrow).status == EscrowStatus::Cancelled,
{
    if !matches!(escrow.status, EscrowStatus::Pending) {
        return Err(EscrowError::InvalidInstruction);
    }
    if !caller_signed || !bytes_eq(caller, &escrow.initializer) {
        return Err(EscrowError::InvalidInstruction);
    }
    escrow.status = EscrowStatus::Cancelled;
    Ok(())
}

/// Marks a pending escrow expired once the current slot is past its
/// deadline. On any failure the escrow is left exactly as it was.
pub fn mark_expired(escrow: &mut EscrowState, current_slot: u64) -> (r: Result<(), EscrowError>)
    ensures
        (match spec_mark_expired(*old(escrow), current_slot) {
            Ok(e) => r is Ok && *final(escrow) == e,
            Err(err) => r == Err::<(), EscrowError>(err) && *final(escrow) == *old(escrow),
        }),
        final(escrow).amount == old(escrow).amount,
        old(escrow).status != EscrowStatus::Pending ==> r is Err
            && *final(escrow) == *old(escrow),
        r is Ok ==> final(escrow).status == EscrowStatus::Expired,
{
    if !matches!(escrow.status, EscrowStatus::Pending) {
        return Err(EscrowError::InvalidInstruction);
    }
    if current_slot <= escrow.deadline_slot {
        return Err(EscrowError::EscrowUnlockTime);
    }
    escrow.status = EscrowStatus::Expired;
    Ok(())
}

/// Status transitions are one-directional: every operation on an escrow
/// that is already completed, cancelled or expired fails, so no status but
/// `Pending` is ever left.
pub proof fn lemma_status_one_directional(
    escrow: EscrowState,
    caller: Seq<u8>,
    caller_signed: bool,
    amount_paid: u64,
    current_slot: u64,
)
    requires
        escrow.status != EscrowStatus::Pending,
    ensures
        spec_complete(escrow, caller, caller_signed, amount_paid, current_slot)
            == Err::<EscrowState, EscrowError>(EscrowError::InvalidInstruction),
        spec_cancel(escrow, caller, caller_signed)
            == Err::<EscrowState, EscrowError>(EscrowError::InvalidInstruction),
        spec_mark_expired(escrow, current_slot)
            == Err::<EscrowState, EscrowError>(EscrowError::InvalidInstruction),
{
}

/// The agreed amount is fixed at creation: whatever a transition does, the
/// escrow it leaves holds the amount it found.
pub proof fn lemma_amount_fixed(
    escrow: EscrowState,
    caller: Seq<u8>,
    caller_signed: bool,
    amount_paid: u64,
    current_slot: u64,
)
    ensures
        spec_complete(escrow, caller, caller_signed, amount_paid, current_slot)
            matches Ok(e) ==> e.amount == escrow.amount,
        spec_cancel(escrow, caller, caller_signed) matches Ok(e) ==> e.amount == escrow.amount,
        spec_mark_expired(escrow, current_slot) matches Ok(e) ==> e.amount == escrow.amount,
{
}

} // verus!
