//! A minimal escrow / deposit-vault library.
//!
//! The vault is a program-owned account, addressed deterministically from a
//! seed label and a bump value, that holds a lamport balance. Deposits grow
//! the balance, withdrawals shrink it, and every validation failure maps to
//! one kind of a closed error enumeration with a stable numeric code.
//! The escrow half models a pending exchange with a slot deadline whose
//! status moves one way: from pending to completed, cancelled or expired.

pub mod codec;
pub mod derivation;
pub mod errors;
pub mod escrow;
pub mod instruction;
pub mod vault;

use vstd::prelude::*;

verus! {

/// Byte-for-byte equality of two byte strings, used to compare account
/// addresses and identities.
pub fn bytes_eq(a: &Vec<u8>, b: &Vec<u8>) -> (r: bool)
    ensures
        r == (a@ == b@),
{
    if a.len() != b.len() {
        return false;
    }
    let n = a.len();
    let mut i: usize = 0;
    while i < n
        invariant
            n == a@.len(),
            n == b@.len(),
            i <= n,
            forall|k: int| 0 <= k < i ==> a@[k] == b@[k],
        decreases n - i,
    {
        if a[i] != b[i] {
            return false;
        }
        i += 1;
    }
    proof {
        assert(a@ =~= b@);
    }
    true
}

} // verus!
