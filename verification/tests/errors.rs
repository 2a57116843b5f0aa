use escrow_vault::bytes_eq;
use escrow_vault::errors::EscrowError;
use solana_program::program_error::ProgramError;

const ALL_KINDS: [EscrowError; 6] = [
    EscrowError::InvalidInstruction,
    EscrowError::NotRentExempt,
    EscrowError::ExpectedAmountMismatch,
    EscrowError::AmountOverflow,
    EscrowError::EscrowTimeout,
    EscrowError::EscrowUnlockTime,
];

#[test]
fn codes_are_stable() {
    assert_eq!(EscrowError::InvalidInstruction.code(), 0);
    assert_eq!(EscrowError::NotRentExempt.code(), 1);
    assert_eq!(EscrowError::ExpectedAmountMismatch.code(), 2);
    assert_eq!(EscrowError::AmountOverflow.code(), 3);
    assert_eq!(EscrowError::EscrowTimeout.code(), 4);
    assert_eq!(EscrowError::EscrowUnlockTime.code(), 5);
}

#[test]
fn codes_are_distinct() {
    for (i, a) in ALL_KINDS.iter().enumerate() {
        for (j, b) in ALL_KINDS.iter().enumerate() {
            assert_eq!(a.code() == b.code(), i == j);
        }
    }
}

#[test]
fn messages_are_the_documented_ones() {
    assert_eq!(EscrowError::InvalidInstruction.message(), "Invalid Instruction");
    assert_eq!(EscrowError::NotRentExempt.message(), "Not rent exempt");
    assert_eq!(EscrowError::ExpectedAmountMismatch.message(), "Expected amount mismatch");
    assert_eq!(EscrowError::AmountOverflow.message(), "Amount overflow");
    assert_eq!(
        EscrowError::EscrowTimeout.message(),
        "Current slot greater than Escrow Timeout"
    );
    assert_eq!(
        EscrowError::EscrowUnlockTime.message(),
        "Current slot lesser than Escrow Unlock time"
    );
}

#[test]
fn program_error_carries_the_code() {
    for kind in ALL_KINDS {
        assert_eq!(kind.to_program_error(), ProgramError::Custom(kind.code()));
    }
    assert_eq!(
        EscrowError::AmountOverflow.to_program_error(),
        ProgramError::Custom(3)
    );
}

#[test]
fn bytes_eq_compares_contents() {
    assert!(bytes_eq(&vec![1, 2, 3], &vec![1, 2, 3]));
    assert!(!bytes_eq(&vec![1, 2, 3], &vec![1, 2, 4]));
    assert!(!bytes_eq(&vec![1, 2, 3], &vec![1, 2]));
    assert!(bytes_eq(&vec![], &vec![]));
}
