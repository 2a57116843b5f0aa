//! Deterministic derivation of the vault's address from a seed label.
//!
//! The host runtime derives a program's account addresses from seed bytes,
//! the program id and a bump value. The derivation itself is a hash the
//! runtime computes; this module names its result and verifies a claimed
//! address and bump by re-deriving them, never by trusting the caller.

use crate::bytes_eq;
use solana_program::pubkey::Pubkey;
use vstd::prelude::*;

verus! {

/// What the host's address derivation yields for one seed label and a
/// 32-byte program id: the derived 32-byte address together with its bump,
/// or nothing in the improbable case that no bump is viable. The result is
/// a function of the seed and the program id alone.
pub uninterp spec fn derivation_of(seed: Seq<u8>, program_id: Seq<u8>) -> Option<(Seq<u8>, u8)>;

/// Relies on `Pubkey::try_find_program_address` of `solana-program`: the
/// derived address and its bump depend only on the seeds and the program id,
/// the address is 32 bytes, and `None` comes back only when no bump is
/// viable for the seed or the seed breaks a precondition of the derivation.
#[verifier::external_body]
fn find_program_address(seed: &Vec<u8>, program_id: &Vec<u8>) -> (r: Option<(Vec<u8>, u8)>)
    requires
        program_id@.len() == 32,
    ensures
        r matches Some(d) ==> derivation_of(seed@, program_id@) == Some((d.0@, d.1))
            && d.0@.len() == 32,
        r is None ==> derivation_of(seed@, program_id@) is None,
{
    let mut id_bytes = [0u8; 32];
    id_bytes.copy_from_slice(program_id.as_slice());
    let id = Pubkey::new_from_array(id_bytes);
    Pubkey::try_find_program_address(&[seed.as_slice()], &id)
        .map(|(address, bump)| (address.to_bytes().to_vec(), bump))
}

/// Re-derives the address for `seed` under `program_id` and holds the
/// claimed `address` and `bump` against it. The claim is untrusted input:
/// it is accepted exactly when it equals the canonical derivation.
pub fn verify_derived_address(
    seed: &Vec<u8>,
    program_id: &Vec<u8>,
    address: &Vec<u8>,
    bump: u8,
) -> (r: bool)
    requires
        program_id@.len() == 32,
    ensures
        r == (derivation_of(seed@, program_id@) == Some((address@, bump))),
{
    match find_program_address(seed, program_id) {
        None => false,
        Some((derived, derived_bump)) => {
            let same = bytes_eq(&derived, address) && derived_bump == bump;
            proof {
                if same {
                    assert(derivation_of(seed@, program_id@) == Some((address@, bump)));
                } else {
                    assert(derivation_of(seed@, program_id@) != Some((address@, bump)));
                }
            }
            same
        },
    }
}

/// The fixed seed label of the deposit vault: the bytes of "deposit".
pub open spec fn vault_seed_spec() -> Seq<u8> {
    seq![100u8, 101u8, 112u8, 111u8, 115u8, 105u8, 116u8]
}

/// The fixed seed label of the deposit vault, as stored bytes.
pub fn vault_seed() -> (r: Vec<u8>)
    ensures
        r@ == vault_seed_spec(),
{
    let mut s: Vec<u8> = Vec::new();
    s.push(100);
    s.push(101);
    s.push(112);
    s.push(111);
    s.push(115);
    s.push(105);
    s.push(116);
    proof {
        assert(s@ =~= vault_seed_spec());
    }
    s
}

} // verus!
