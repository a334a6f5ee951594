//! Account roles for the instruction, and the explicit precondition
//! validation that runs before the core operation.
//!
//! The host runtime hands the program a bundle of account references; each
//! must satisfy its role before any work is done. The validator checks the
//! roles in a fixed order and reports the first unmet one as a typed
//! error, so a failed call performs no external work at all.

use vstd::prelude::*;
use crate::addr::Address;
use crate::pda::{derive_mint_address, mint_pda};

verus! {

/// What the logic reads of one ledger account reference: its address, its
/// balance, whether the transaction was signed by it, whether it may be
/// written, and whether the account already exists on the ledger.
pub struct AccountView {
    pub address: Address,
    pub lamports: u64,
    pub is_signer: bool,
    pub is_writable: bool,
    pub is_initialized: bool,
}

/// What the logic reads of the rent-exemption information source: its
/// account address, and the minimum balance that makes the new mint
/// account rent-exempt.
pub struct RentView {
    pub address: Address,
    pub minimum_balance: u64,
}

/// The fixed addresses of the external services the instruction relies
/// on; the program shell supplies them from its configuration.
pub struct KnownPrograms {
    pub system_program: Address,
    pub token_program: Address,
    pub token_metadata_program: Address,
    pub rent_sysvar: Address,
}

/// The account bundle for the instruction: metadata target, mint target,
/// payer, rent source, and the three external program references, plus
/// the resolved disambiguation byte for the mint derivation.
pub struct InitToken {
    pub metadata: AccountView,
    pub mint: AccountView,
    pub payer: AccountView,
    pub rent: RentView,
    pub system_program: Address,
    pub token_program: Address,
    pub token_metadata_program: Address,
    pub mint_bump: u8,
}

/// The instruction's companion schema that names no accounts.
pub struct Initialize {}

/// The typed validation errors, one per unmet account role.
#[derive(Clone, Copy, Debug, PartialEq, Eq, Structural)]
pub enum TokenError {
    MetadataNotWritable,
    DerivationMismatch,
    MintAlreadyInUse,
    MintNotWritable,
    PayerNotSigner,
    PayerNotWritable,
    InsufficientFunds,
    RentSysvarMismatch,
    SystemProgramMismatch,
    TokenProgramMismatch,
    MetadataProgramMismatch,
}

/// The validation outcome, checks in order: the metadata target must be
/// writable; the mint target must sit at the address derived from the
/// fixed label and the supplied disambiguation byte, must not exist yet,
/// and must be writable; the payer must have signed, be writable, and
/// hold at least the rent-exempt minimum; and the rent source and the
/// three program references must be the known fixed addresses.
pub open spec fn validation_outcome(
    ctx: InitToken,
    program_id: Seq<u8>,
    known: KnownPrograms,
) -> Result<(), TokenError> {
    if !ctx.metadata.is_writable {
        Err(TokenError::MetadataNotWritable)
    } else if mint_pda(ctx.mint_bump, program_id) != Some(ctx.mint.address@) {
        Err(TokenError::DerivationMismatch)
    } else if ctx.mint.is_initialized {
        Err(TokenError::MintAlreadyInUse)
    } else if !ctx.mint.is_writable {
        Err(TokenError::MintNotWritable)
    } else if !ctx.payer.is_signer {
        Err(TokenError::PayerNotSigner)
    } else if !ctx.payer.is_writable {
        Err(TokenError::PayerNotWritable)
    } else if ctx.payer.lamports < ctx.rent.minimum_balance {
        Err(TokenError::InsufficientFunds)
    } else if ctx.rent.address@ != known.rent_sysvar@ {
        Err(TokenError::RentSysvarMismatch)
    } else if ctx.system_program@ != known.system_program@ {
        Err(TokenError::SystemProgramMismatch)
    } else if ctx.token_program@ != known.token_program@ {
        Err(TokenError::TokenProgramMismatch)
    } else if ctx.token_metadata_program@ != known.token_metadata_program@ {
        Err(TokenError::MetadataProgramMismatch)
    } else {
        Ok(())
    }
}

/// Checks every account role and returns the first unmet one, exactly as
/// `validation_outcome` states. `Ok` if and only if every role is met.
pub fn validate_accounts(ctx: &InitToken, program_id: &Address, known: &KnownPrograms) -> (r:
    Result<(), TokenError>)
    ensures
        r == validation_outcome(*ctx, program_id@, *known),
{
    if !ctx.metadata.is_writable {
        return Err(TokenError::MetadataNotWritable);
    }
    let derived = derive_mint_address(ctx.mint_bump, program_id);
    let derivation_ok = match &derived {
        Some(a) => *a == ctx.mint.address,
        None => false,
    };
    if !derivation_ok {
        return Err(TokenError::DerivationMismatch);
    }
    if ctx.mint.is_initialized {
        return Err(TokenError::MintAlreadyInUse);
    }
    if !ctx.mint.is_writable {
        return Err(TokenError::MintNotWritable);
    }
    if !ctx.payer.is_signer {
        return Err(TokenError::PayerNotSigner);
    }
    if !ctx.payer.is_writable {
        return Err(TokenError::PayerNotWritable);
    }
    if ctx.payer.lamports < ctx.rent.minimum_balance {
        return Err(TokenError::InsufficientFunds);
    }
    if !(ctx.rent.address == known.rent_sysvar) {
        return Err(TokenError::RentSysvarMismatch);
    }
    if !(ctx.system_program == known.system_program) {
        return Err(TokenError::SystemProgramMismatch);
    }
    if !(ctx.token_program == known.token_program) {
        return Err(TokenError::TokenProgramMismatch);
    }
    if !(ctx.token_metadata_program == known.token_metadata_program) {
        return Err(TokenError::MetadataProgramMismatch);
    }
    Ok(())
}

/// Only the canonical derivation is accepted: whenever validation passes,
/// the mint target's address is exactly the address derived from the
/// fixed label, the supplied disambiguation byte, and the program id.
pub proof fn lemma_accepted_mint_is_derived(
    ctx: InitToken,
    program_id: Seq<u8>,
    known: KnownPrograms,
)
    requires
        validation_outcome(ctx, program_id, known) is Ok,
    ensures
        mint_pda(ctx.mint_bump, program_id) == Some(ctx.mint.address@),
{
}

} // verus!
