//! Deterministic storage-address derivation.  The host's scheme hashes the
//! seed bytes `caller || title || bump` together with the program id, trying
//! bump bytes from the highest down, and keeps the first result that lies
//! outside the host's normal address space; the search can come up empty.

use crate::error::ReviewError;
use vstd::prelude::*;
use vstd::utf8::encode_utf8;

verus! {

/// The outcome of the host's address derivation for the seed pair
/// `(caller, title)` under `program_id`: the derived 32-byte address and
/// the bump byte that produced it, or nothing when the search fails.
pub uninterp spec fn pda_of(caller: Seq<u8>, title: Seq<u8>, program_id: Seq<u8>) -> Option<
    (Seq<u8>, u8),
>;

/// Relies on `Pubkey::try_find_program_address`: its result is a pure
/// function of the seed bytes and the program id, and it returns `None`
/// when no bump byte yields a usable address.
#[verifier::external_body]
fn find_review_address(caller: &[u8; 32], title: &[u8], program_id: &[u8; 32]) -> (r: Option<
    ([u8; 32], u8),
>)
    ensures
        match (r, pda_of(caller@, title@, program_id@)) {
            (Some(found), Some(derived)) => found.0@ == derived.0 && found.1 == derived.1,
            (None, None) => true,
            _ => false,
        },
{
    let program_key = solana_program::pubkey::Pubkey::new_from_array(*program_id);
    let seeds: [&[u8]; 2] = [&caller[..], title];
    match solana_program::pubkey::Pubkey::try_find_program_address(&seeds, &program_key) {
        Some((address, bump)) => Some((address.to_bytes(), bump)),
        None => None,
    }
}

/// Derives the storage address for `(caller, title)` under `program_id`.
/// The result is a function of the three inputs alone: identical inputs
/// always yield the identical `(address, bump)` pair.
pub fn derive_review_address(caller: &[u8; 32], title: &str, program_id: &[u8; 32]) -> (r: Result<
    ([u8; 32], u8),
    ReviewError,
>)
    ensures
        match (r, pda_of(caller@, encode_utf8(title@), program_id@)) {
            (Ok(found), Some(derived)) => found.0@ == derived.0 && found.1 == derived.1,
            (Err(e), None) => e == ReviewError::AddressDerivationExhausted,
            _ => false,
        },
{
    match find_review_address(caller, title.as_bytes(), program_id) {
        Some(found) => Ok(found),
        None => Err(ReviewError::AddressDerivationExhausted),
    }
}

} // verus!
