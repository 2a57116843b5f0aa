//! The stored vault record: eight little-endian balance bytes, then the
//! bump. This is the exact layout the vault account persists, so a record
//! decodes to one vault and every vault has one record.

use crate::vault::VaultAccount;
use vstd::prelude::*;

verus! {

/// The length of a stored vault record.
pub const VAULT_RECORD_LEN: usize = 9;

/// The stored record of a vault: byte `i` of the first eight is the `i`-th
/// little-endian byte of the balance; the last byte is the bump.
pub open spec fn record_bytes(v: VaultAccount) -> Seq<u8> {
    Seq::new(9, |i: int| if i < 8 {
        (v.balance >> (8 * i) as u64) as u8
    } else {
        v.bump
    })
}

/// Writes a vault as its stored record.
pub fn encode_vault(v: &VaultAccount) -> (r: Vec<u8>)
    ensures
        r@ == record_bytes(*v),
        r@.len() == VAULT_RECORD_LEN,
{
    let mut out: Vec<u8> = Vec::new();
    out.push((v.balance >> 0u64) as u8);
    out.push((v.balance >> 8u64) as u8);
    out.push((v.balance >> 16u64) as u8);
    out.push((v.balance >> 24u64) as u8);
    out.push((v.balance >> 32u64) as u8);
    out.push((v.balance >> 40u64) as u8);
    out.push((v.balance >> 48u64) as u8);
    out.push((v.balance >> 56u64) as u8);
    out.push(v.bump);
    proof {
        assert(out@ =~= record_bytes(*v));
    }
    out
}

/// Reads a vault back from its stored record. Exactly the nine-byte
/// records decode, and what they decode to is the one vault whose record
/// they are.
pub fn decode_vault(bytes: &Vec<u8>) -> (r: Option<VaultAccount>)
    ensures
        bytes@.len() != VAULT_RECORD_LEN ==> r is None,
        bytes@.len() == VAULT_RECORD_LEN ==> (r matches Some(v) && record_bytes(v) == bytes@),
{
    if bytes.len() != VAULT_RECORD_LEN {
        return None;
    }
    let b0 = bytes[0];
    let b1 = bytes[1];
    let b2 = bytes[2];
    let b3 = bytes[3];
    let b4 = bytes[4];
    let b5 = bytes[5];
    let b6 = bytes[6];
    let b7 = bytes[7];
    let balance: u64 = (b0 as u64) | ((b1 as u64) << 8u64) | ((b2 as u64) << 16u64)
        | ((b3 as u64) << 24u64) | ((b4 as u64) << 32u64) | ((b5 as u64) << 40u64)
        | ((b6 as u64) << 48u64) | ((b7 as u64) << 56u64);
    let v = VaultAccount { balance, bump: bytes[8] };
    proof {
        lemma_le_bytes_assemble(b0, b1, b2, b3, b4, b5, b6, b7);
        assert(record_bytes(v) =~= bytes@);
    }
    Some(v)
}

/// Shifting the assembled little-endian word back down recovers each byte.
proof fn lemma_le_bytes_assemble(b0: u8, b1: u8, b2: u8, b3: u8, b4: u8, b5: u8, b6: u8, b7: u8)
    ensures
        ({
            let x = (b0 as u64) | ((b1 as u64) << 8u64) | ((b2 as u64) << 16u64)
                | ((b3 as u64) << 24u64) | ((b4 as u64) << 32u64) | ((b5 as u64) << 40u64)
                | ((b6 as u64) << 48u64) | ((b7 as u64) << 56u64);
            &&& (x >> 0u64) as u8 == b0
            &&& (x >> 8u64) as u8 == b1
            &&& (x >> 16u64) as u8 == b2
            &&& (x >> 24u64) as u8 == b3
            &&& (x >> 32u64) as u8 == b4
            &&& (x >> 40u64) as u8 == b5
            &&& (x >> 48u64) as u8 == b6
            &&& (x >> 56u64) as u8 == b7
        }),
{
    assert(({
        let x = (b0 as u64) | ((b1 as u64) << 8u64) | ((b2 as u64) << 16u64)
            | ((b3 as u64) << 24u64) | ((b4 as u64) << 32u64) | ((b5 as u64) << 40u64)
            | ((b6 as u64) << 48u64) | ((b7 as u64) << 56u64);
        &&& (x >> 0u64) as u8 == b0
        &&& (x >> 8u64) as u8 == b1
        &&& (x >> 16u64) as u8 == b2
        &&& (x >> 24u64) as u8 == b3
        &&& (x >> 32u64) as u8 == b4
        &&& (x >> 40u64) as u8 == b5
        &&& (x >> 48u64) as u8 == b6
        &&& (x >> 56u64) as u8 == b7
    })) by (bit_vector);
}

/// The record pins the vault: two vaults with the same stored record hold
/// the same balance and the same bump. Together with the contracts of
/// [`encode_vault`] and [`decode_vault`], storing a vault and reading it
/// back gives the vault unchanged.
pub proof fn lemma_record_injective(a: VaultAccount, b: VaultAccount)
    requires
        record_bytes(a) == record_bytes(b),
    ensures
        a == b,
{
    let x = a.balance;
    let y = b.balance;
    assert(record_bytes(a)[0] == (x >> 0u64) as u8);
    assert(record_bytes(a)[1] == (x >> 8u64) as u8);
    assert(record_bytes(a)[2] == (x >> 16u64) as u8);
    assert(record_bytes(a)[3] == (x >> 24u64) as u8);
    assert(record_bytes(a)[4] == (x >> 32u64) as u8);
    assert(record_bytes(a)[5] == (x >> 40u64) as u8);
    assert(record_bytes(a)[6] == (x >> 48u64) as u8);
    assert(record_bytes(a)[7] == (x >> 56u64) as u8);
    assert(record_bytes(a)[8] == a.bump);
    assert(record_bytes(b)[0] == (y >> 0u64) as u8);
    assert(record_bytes(b)[1] == (y >> 8u64) as u8);
    assert(record_bytes(b)[2] == (y >> 16u64) as u8);
    assert(record_bytes(b)[3] == (y >> 24u64) as u8);
    assert(record_bytes(b)[4] == (y >> 32u64) as u8);
    assert(record_bytes(b)[5] == (y >> 40u64) as u8);
    assert(record_bytes(b)[6] == (y >> 48u64) as u8);
    assert(record_bytes(b)[7] == (y >> 56u64) as u8);
    assert(record_bytes(b)[8] == b.bump);
    assert(x == y) by (bit_vector)
        requires
            (x >> 0u64) as u8 == (y >> 0u64) as u8,
            (x >> 8u64) as u8 == (y >> 8u64) as u8,
            (x >> 16u64) as u8 == (y >> 16u64) as u8,
            (x >> 24u64) as u8 == (y >> 24u64) as u8,
            (x >> 32u64) as u8 == (y >> 32u64) as u8,
            (x >> 40u64) as u8 == (y >> 40u64) as u8,
            (x >> 48u64) as u8 == (y >> 48u64) as u8,
            (x >> 56u64) as u8 == (y >> 56u64) as u8,
    ;
}

} // verus!
