//! The pool's derived authority: the address that the pool's own key and its
//! nonce derive under the program id. It holds the vault's withdrawal rights
//! and is never a keyholder, so it is recomputed, never trusted from a caller.
use anchor_lang::solana_program::pubkey::{Pubkey, PubkeyError};
use vstd::prelude::*;

verus! {

/// A 32-byte account address.
pub type Key = [u8; 32];

#[verifier::external_type_specification]
#[verifier::external_body]
pub struct ExPubkeyError(PubkeyError);

/// The program-derived address of the seeds `[pool, [nonce]]` under
/// `program_id`, or `None` where those seeds derive no address.
pub uninterp spec fn program_address_of(pool: Seq<u8>, nonce: u8, program_id: Seq<u8>) -> Option<Seq<u8>>;

/// Relies on `Pubkey::create_program_address` (solana-address): with the seeds
/// `[pool, [nonce]]`, both within the 32-byte seed limit, it returns the derived
/// address, or an error where the hash lies on the curve. The result depends on
/// its arguments alone.
#[verifier::external_body]
fn create_program_address(pool: &Key, nonce: u8, program_id: &Key) -> (r: Result<Key, PubkeyError>)
    ensures
        match r {
            Ok(a) => program_address_of(pool@, nonce, program_id@) == Some(a@),
            Err(_) => program_address_of(pool@, nonce, program_id@) is None,
        },
{
    let bump = [nonce];
    let seeds: [&[u8]; 2] = [pool, &bump];
    Pubkey::create_program_address(&seeds, &Pubkey::from(*program_id)).map(|a| a.to_bytes())
}

/// Recomputes the authority of the pool whose account key is `pool` and whose
/// stored nonce is `nonce`. Two calls on the same arguments give the same result.
pub fn derive_authority(pool: &Key, nonce: u8, program_id: &Key) -> (r: Option<Key>)
    ensures
        match r {
            Some(a) => program_address_of(pool@, nonce, program_id@) == Some(a@),
            None => program_address_of(pool@, nonce, program_id@) is None,
        },
{
    match create_program_address(pool, nonce, program_id) {
        Ok(a) => Some(a),
        Err(_) => None,
    }
}

/// Whether two keys hold the same bytes.
pub fn same_key(a: &Key, b: &Key) -> (r: bool)
    ensures
        r == (a@ == b@),
{
    let mut i: usize = 0;
    while i < 32
        invariant
            0 <= i <= 32,
            a@.len() == 32,
            b@.len() == 32,
            forall|j: int| 0 <= j < i ==> a@[j] == b@[j],
        decreases 32 - i,
    {
        if a[i] != b[i] {
            return false;
        }
        i = i + 1;
    }
    assert(a@ =~= b@);
    true
}

} // verus!
