//! The delegated call to the external metadata registrar: the descriptive
//! record it is handed, and the full call context the program shell
//! performs on the ledger.

use vstd::prelude::*;
use crate::addr::Address;
use crate::accounts::InitToken;
use crate::params::InitTokenParams;
use crate::pda::MintAuthProof;

verus! {

/// One entry of a creator list, as the registrar defines it.
pub struct CreatorRecord {
    pub address: Address,
    pub verified: bool,
    pub share: u8,
}

/// A reference to a collection, as the registrar defines it.
pub struct CollectionRecord {
    pub verified: bool,
    pub key: Address,
}

/// How a usage-constrained token may be used.
pub enum UseMethod {
    Burn,
    Multiple,
    Single,
}

/// A usage constraint, as the registrar defines it.
pub struct UsesRecord {
    pub use_method: UseMethod,
    pub remaining: u64,
    pub total: u64,
}

/// The sized-collection payload the registrar can optionally record.
pub struct CollectionDetailsRecord {
    pub size: u64,
}

/// The descriptive record handed to the registrar: the caller's three
/// text fields, and the fixed choices this instruction makes — zero
/// royalty basis points, no creator list, no collection reference, no
/// usage constraint.
pub struct MetadataRecord {
    pub name: String,
    pub symbol: String,
    pub uri: String,
    pub seller_fee_basis_points: u16,
    pub creators: Option<Vec<CreatorRecord>>,
    pub collection: Option<CollectionRecord>,
    pub uses: Option<UsesRecord>,
}

/// The delegated call the program shell performs: the registrar's
/// address, the seven account references it is handed, the descriptive
/// record, the two fixed flags, and the authorization proof under which
/// the call authenticates as the derived mint address.
pub struct RegistrarCall {
    pub program: Address,
    pub payer: Address,
    pub update_authority: Address,
    pub mint: Address,
    pub metadata: Address,
    pub mint_authority: Address,
    pub system_program: Address,
    pub rent: Address,
    pub data: MetadataRecord,
    pub is_mutable: bool,
    pub update_authority_is_signer: bool,
    pub collection_details: Option<CollectionDetailsRecord>,
    pub signer: MintAuthProof,
}

/// The exact call the instruction assembles: the update authority and the
/// mint authority are the derived mint address itself, the record carries
/// the caller's fields with zero royalties and no creator, collection or
/// usage payloads, the record is immutable, and the update authority
/// signs through the derivation proof.
///
/// Note that the update authority is the mint address, not the payer: the
/// interface fixes it so, which leaves the stored record updatable only
/// by the mint's own signing authority. This is kept as the interface
/// defines it rather than silently changed.
pub open spec fn registrar_call_spec(ctx: InitToken, params: InitTokenParams) -> RegistrarCall {
    RegistrarCall {
        program: ctx.token_metadata_program,
        payer: ctx.payer.address,
        update_authority: ctx.mint.address,
        mint: ctx.mint.address,
        metadata: ctx.metadata.address,
        mint_authority: ctx.mint.address,
        system_program: ctx.system_program,
        rent: ctx.rent.address,
        data: MetadataRecord {
            name: params.name,
            symbol: params.symbol,
            uri: params.uri,
            seller_fee_basis_points: 0,
            creators: None,
            collection: None,
            uses: None,
        },
        is_mutable: false,
        update_authority_is_signer: true,
        collection_details: None,
        signer: MintAuthProof { bump: ctx.mint_bump },
    }
}

/// Assembles the registrar call, exactly as `registrar_call_spec` states.
pub fn build_registrar_call(ctx: &InitToken, params: InitTokenParams) -> (c: RegistrarCall)
    ensures
        c == registrar_call_spec(*ctx, params),
{
    RegistrarCall {
        program: ctx.token_metadata_program.clone(),
        payer: ctx.payer.address.clone(),
        update_authority: ctx.mint.address.clone(),
        mint: ctx.mint.address.clone(),
        metadata: ctx.metadata.address.clone(),
        mint_authority: ctx.mint.address.clone(),
        system_program: ctx.system_program.clone(),
        rent: ctx.rent.address.clone(),
        data: MetadataRecord {
            name: params.name,
            symbol: params.symbol,
            uri: params.uri,
            seller_fee_basis_points: 0,
            creators: None,
            collection: None,
            uses: None,
        },
        is_mutable: false,
        update_authority_is_signer: true,
        collection_details: None,
        signer: MintAuthProof { bump: ctx.mint_bump },
    }
}

} // verus!
