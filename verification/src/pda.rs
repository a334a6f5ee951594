//! Derivation of the program-owned mint address, and the authorization
//! proof by which the program acts on its behalf.
//!
//! The mint address is fully determined by the fixed label, a
//! disambiguation byte, and the program id. Exactly one byte value yields
//! a valid derivation in a given context; the caller discovers it and
//! supplies it with the instruction.

use vstd::prelude::*;
use crate::addr::Address;

verus! {

/// The bytes of the fixed derivation label.
pub open spec fn mint_label() -> Seq<u8> {
    seq![109u8, 105u8, 110u8, 116u8]
}

/// The runtime's address derivation for the fixed label, a disambiguation
/// byte, and a program id: `Some` derived address, or `None` where that
/// byte yields no valid derivation. A function of its arguments alone.
pub uninterp spec fn mint_pda(bump: u8, program_id: Seq<u8>) -> Option<Seq<u8>>;

/// Relies on `Pubkey::create_program_address`: the result is a fixed hash
/// of the seed bytes and the program id alone, `Ok` exactly where that
/// hash is a valid derived address, `Err` otherwise.
#[verifier::external_body]
pub(crate) fn derive_mint_address(bump: u8, program_id: &Address) -> (r: Option<Address>)
    ensures
        match r {
            Some(a) => mint_pda(bump, program_id@) == Some(a@),
            None => mint_pda(bump, program_id@) is None,
        },
{
    let pid = anchor_lang::solana_program::pubkey::Pubkey::new_from_array(program_id.bytes);
    let one = [bump];
    match anchor_lang::solana_program::pubkey::Pubkey::create_program_address(
        &[b"mint", &one],
        &pid,
    ) {
        Ok(a) => Some(Address { bytes: a.to_bytes() }),
        Err(_) => None,
    }
}

/// Exposes the derivation for callers outside the verified core, so they
/// can discover the canonical disambiguation byte for a program id.
pub fn derived_mint_address(bump: u8, program_id: &Address) -> (r: Option<Address>)
    ensures
        match r {
            Some(a) => mint_pda(bump, program_id@) == Some(a@),
            None => mint_pda(bump, program_id@) is None,
        },
{
    derive_mint_address(bump, program_id)
}

/// The authorization proof for acting as the derived mint address: the
/// fixed label together with the disambiguation byte.
pub struct MintAuthProof {
    pub bump: u8,
}

impl MintAuthProof {
    /// Presents the proof in the structural shape the signing mechanism
    /// expects: a sequence holding one sequence of seed components, the
    /// label bytes followed by the one-byte disambiguation value.
    pub fn seed_groups(&self) -> (r: Vec<Vec<Vec<u8>>>)
        ensures
            r@.len() == 1,
            r@[0]@.len() == 2,
            r@[0]@[0]@ == mint_label(),
            r@[0]@[1]@ == seq![self.bump],
    {
        let mut label: Vec<u8> = Vec::new();
        label.push(109);
        label.push(105);
        label.push(110);
        label.push(116);
        let mut bump_seed: Vec<u8> = Vec::new();
        bump_seed.push(self.bump);
        let mut group: Vec<Vec<u8>> = Vec::new();
        proof {
            assert(label@ =~= mint_label());
            assert(bump_seed@ =~= seq![self.bump]);
        }
        group.push(label);
        group.push(bump_seed);
        let mut groups: Vec<Vec<Vec<u8>>> = Vec::new();
        groups.push(group);
        groups
    }
}

/// Deriving the mint address is deterministic: the same disambiguation
/// byte and the same program id always yield the same derived address.
pub proof fn lemma_derivation_deterministic(b1: u8, b2: u8, p1: Seq<u8>, p2: Seq<u8>)
    requires
        b1 == b2,
        p1 == p2,
    ensures
        mint_pda(b1, p1) == mint_pda(b2, p2),
{
}

} // verus!
