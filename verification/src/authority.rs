//! The vault authority: a deterministic, program-exclusive signing
//! identity derived from a fixed seed and the program's own identity.
//!
//! No private key exists for the derived address, so only the program
//! itself can sign as it; the same pair is re-derived wherever a vault
//! transfer or closure must be authorized.

use vstd::prelude::*;

use crate::states::token_account::Pubkey;

verus! {

/// The vault authority derived for a program identity: its address and
/// bump discriminator, or nothing in the statistically improbable case
/// that no bump yields a valid derived address.
pub uninterp spec fn vault_authority_of(program_id: Seq<u8>) -> Option<(Seq<u8>, u8)>;

/// Relies on `Pubkey::try_find_program_address` of the Solana address
/// crate, called with the protocol's fixed authority seed: the derived
/// address and bump are computed from the seed bytes and the program
/// identity alone, so with the seed fixed they are a function of the
/// program identity; `None` comes back only when no bump yields a valid
/// derived address.
#[verifier::external_body]
fn find_vault_authority(program_id: &Pubkey) -> (r: Option<(Pubkey, u8)>)
    ensures
        match r {
            Some(p) => vault_authority_of(program_id@) == Some((p.0@, p.1)),
            None => vault_authority_of(program_id@) is None,
        },
{
    let pid = anchor_lang::prelude::Pubkey::new_from_array(*program_id);
    match anchor_lang::prelude::Pubkey::try_find_program_address(&[b"vault-authority"], &pid) {
        Some((addr, bump)) => Some((addr.to_bytes(), bump)),
        None => None,
    }
}

/// Derives the vault authority for the given program identity.
///
/// The result is deterministic: every call on the same program identity,
/// here or in any client, yields the same address and bump.
pub fn derive_vault_authority(program_id: &Pubkey) -> (r: Option<(Pubkey, u8)>)
    ensures
        match r {
            Some(p) => vault_authority_of(program_id@) == Some((p.0@, p.1)),
            None => vault_authority_of(program_id@) is None,
        },
{
    find_vault_authority(program_id)
}

} // verus!
