//! The instruction surface: which operation a request asks for, decoded
//! from raw instruction bytes. A request that decodes to none of the three
//! operations is invalid.
//!
//! The wire layout is one tag byte, then the operation's operands:
//! tag 0, the claimed bump — initialize;
//! tag 1, eight little-endian amount bytes — deposit;
//! tag 2, eight little-endian amount bytes — withdraw. Who may withdraw is
//! deployment configuration, never part of the request.

use vstd::prelude::*;

verus! {

/// One decoded request against the vault.
#[derive(Debug, PartialEq, Eq)]
pub enum VaultInstruction {
    Initialize { bump: u8 },
    Deposit { amount: u64 },
    Withdraw { amount: u64 },
}

/// The value of eight little-endian bytes.
pub open spec fn le_u64(b: Seq<u8>) -> u64
    recommends
        b.len() == 8,
{
    (b[0] as u64) | ((b[1] as u64) << 8u64) | ((b[2] as u64) << 16u64)
        | ((b[3] as u64) << 24u64) | ((b[4] as u64) << 32u64) | ((b[5] as u64) << 40u64)
        | ((b[6] as u64) << 48u64) | ((b[7] as u64) << 56u64)
}

/// Whether `data` is a well-formed initialize request: tag 0 and the bump.
pub open spec fn is_initialize(data: Seq<u8>) -> bool {
    data.len() == 2 && data[0] == 0
}

/// Whether `data` is a well-formed deposit request: tag 1 and the amount.
pub open spec fn is_deposit(data: Seq<u8>) -> bool {
    data.len() == 9 && data[0] == 1
}

/// Whether `data` is a well-formed withdraw request: tag 2 and the amount.
pub open spec fn is_withdraw(data: Seq<u8>) -> bool {
    data.len() == 9 && data[0] == 2
}

/// Decodes a request. Exactly the three well-formed layouts decode; every
/// other byte string is refused, which the caller surfaces as an invalid
/// instruction.
pub fn parse_instruction(data: &Vec<u8>) -> (r: Option<VaultInstruction>)
    ensures
        is_initialize(data@) ==> r == Some(VaultInstruction::Initialize { bump: data@[1] }),
        is_deposit(data@) ==> r == Some(VaultInstruction::Deposit {
            amount: le_u64(data@.subrange(1, 9)),
        }),
        is_withdraw(data@) ==> r == Some(VaultInstruction::Withdraw {
            amount: le_u64(data@.subrange(1, 9)),
        }),
        !is_initialize(data@) && !is_deposit(data@) && !is_withdraw(data@) ==> r is None,
{
    if data.len() == 0 {
        return None;
    }
    let tag = data[0];
    if tag == 0 && data.len() == 2 {
        Some(VaultInstruction::Initialize { bump: data[1] })
    } else if tag == 1 && data.len() == 9 {
        let amount = read_le_u64(data, 1);
        Some(VaultInstruction::Deposit { amount })
    } else if tag == 2 && data.len() == 9 {
        let amount = read_le_u64(data, 1);
        Some(VaultInstruction::Withdraw { amount })
    } else {
        None
    }
}

/// Reads the eight little-endian bytes at `start`.
fn read_le_u64(data: &Vec<u8>, start: usize) -> (r: u64)
    requires
        start + 8 <= data@.len(),
    ensures
        r == le_u64(data@.subrange(start as int, start + 8)),
{
    let n = data.len();
    proof {
        assert(start + 8 <= n);
    }
    let r = (data[start] as u64) | ((data[start + 1] as u64) << 8u64)
        | ((data[start + 2] as u64) << 16u64) | ((data[start + 3] as u64) << 24u64)
        | ((data[start + 4] as u64) << 32u64) | ((data[start + 5] as u64) << 40u64)
        | ((data[start + 6] as u64) << 48u64) | ((data[start + 7] as u64) << 56u64);
    proof {
        let s = data@.subrange(start as int, start + 8);
        assert(s[0] == data@[start as int]);
        assert(s[1] == data@[start + 1]);
        assert(s[2] == data@[start + 2]);
        assert(s[3] == data@[start + 3]);
        assert(s[4] == data@[start + 4]);
        assert(s[5] == data@[start + 5]);
        assert(s[6] == data@[start + 6]);
        assert(s[7] == data@[start + 7]);
    }
    r
}

} // verus!
