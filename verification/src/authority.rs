//! The derived-authority bridge: the key-less identity that custodies every
//! escrow this program creates.
//!
//! The identity is computed from the program's own identity and one fixed
//! seed; it has no private counterpart, and the host accepts it as a signer
//! for requests this program issues by re-deriving it from the same seed.

use vstd::prelude::*;

verus! {

/// The derived-authority identity and its bump seed for a program identity,
/// when one exists: a pure function of the program identity alone (the seed
/// is fixed). It is `None` only in the statistically unreachable case that no
/// bump seed yields an off-curve identity, so whether an authority exists is
/// itself decided by the program identity.
pub uninterp spec fn derived_authority_of(program_id: Seq<u8>) -> Option<(Seq<u8>, u8)>;

/// Relies on solana_program::pubkey::Pubkey::try_find_program_address, called
/// with the single fixed seed b"escrow": it deterministically finds the one
/// off-curve identity and bump seed for this program identity, or reports
/// that none exists (statistically unreachable, and the only case in which
/// the underlying search fails for a single short seed).
#[verifier::external_body]
pub fn find_escrow_authority(program_id: &Vec<u8>) -> (r: Option<(Vec<u8>, u8)>)
    requires
        program_id@.len() == 32,
    ensures
        (r is Some) == (derived_authority_of(program_id@) is Some),
        r matches Some(p) ==> p.0@.len() == 32 && derived_authority_of(program_id@) == Some(
            (p.0@, p.1),
        ),
{
    let mut key = [0u8; 32];
    key.copy_from_slice(program_id.as_slice());
    let pk = solana_program::pubkey::Pubkey::new_from_array(key);
    match solana_program::pubkey::Pubkey::try_find_program_address(&[b"escrow"], &pk) {
        Some((pda, bump)) => Some((pda.to_bytes().to_vec(), bump)),
        None => None,
    }
}

} // verus!
