use escrow_vault::codec::{decode_vault, encode_vault};
use escrow_vault::instruction::{parse_instruction, VaultInstruction};
use escrow_vault::vault::VaultAccount;

#[test]
fn record_layout_is_little_endian_balance_then_bump() {
    let v = VaultAccount { balance: 0x0102030405060708, bump: 0xfe };
    let record = encode_vault(&v);
    assert_eq!(record, vec![0x08, 0x07, 0x06, 0x05, 0x04, 0x03, 0x02, 0x01, 0xfe]);
}

#[test]
fn record_round_trips() {
    for balance in [0u64, 1, 255, 256, 60, u64::MAX - 1, u64::MAX] {
        for bump in [0u8, 1, 254, 255] {
            let v = VaultAccount { balance, bump };
            assert_eq!(decode_vault(&encode_vault(&v)), Some(v));
        }
    }
}

#[test]
fn decode_rejects_wrong_lengths() {
    assert_eq!(decode_vault(&vec![]), None);
    assert_eq!(decode_vault(&vec![0; 8]), None);
    assert_eq!(decode_vault(&vec![0; 10]), None);
}

#[test]
fn decode_reads_known_record() {
    let bytes = vec![60, 0, 0, 0, 0, 0, 0, 0, 7];
    assert_eq!(decode_vault(&bytes), Some(VaultAccount { balance: 60, bump: 7 }));
}

#[test]
fn parse_initialize_request() {
    assert_eq!(
        parse_instruction(&vec![0, 251]),
        Some(VaultInstruction::Initialize { bump: 251 })
    );
}

#[test]
fn parse_deposit_request() {
    let mut data = vec![1u8];
    data.extend_from_slice(&100u64.to_le_bytes());
    assert_eq!(
        parse_instruction(&data),
        Some(VaultInstruction::Deposit { amount: 100 })
    );
}

#[test]
fn parse_withdraw_request() {
    let mut data = vec![2u8];
    data.extend_from_slice(&40u64.to_le_bytes());
    assert_eq!(
        parse_instruction(&data),
        Some(VaultInstruction::Withdraw { amount: 40 })
    );
}

#[test]
fn parse_rejects_malformed_requests() {
    assert_eq!(parse_instruction(&vec![]), None);
    assert_eq!(parse_instruction(&vec![3, 0]), None);
    assert_eq!(parse_instruction(&vec![0]), None);
    assert_eq!(parse_instruction(&vec![0, 1, 2]), None);
    assert_eq!(parse_instruction(&vec![1, 0, 0]), None);
    assert_eq!(parse_instruction(&vec![2; 8]), None);
    assert_eq!(parse_instruction(&vec![2; 10]), None);
}
