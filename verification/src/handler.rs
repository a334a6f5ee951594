//! The single instruction: validate the account bundle, then assemble the
//! delegated registrar call.
//!
//! The handler performs no ledger effect itself. On success it hands the
//! program shell the exact call to perform; on any unmet account role it
//! returns the typed error and hands back nothing, so no external call is
//! made at all. The host runtime executes the performed call atomically:
//! either the mint and its metadata record are both created, or nothing
//! is.

use vstd::prelude::*;
use crate::addr::Address;
use crate::accounts::{validate_accounts, validation_outcome, InitToken, KnownPrograms, TokenError};
use crate::params::InitTokenParams;
use crate::registrar::{build_registrar_call, registrar_call_spec, RegistrarCall};

verus! {

/// The creation of the mint record itself, which the host runtime
/// performs before the registrar call: the derived address receives a
/// mint with the caller's decimal precision, the payer as its authority,
/// and the rent-exempt balance funded by the payer.
pub struct MintCreation {
    pub address: Address,
    pub decimals: u8,
    pub mint_authority: Address,
    pub payer: Address,
    pub lamports: u64,
}

/// Both halves of the operation, ready to perform: the mint creation and
/// the delegated registrar call.
pub struct PreparedToken {
    pub mint_creation: MintCreation,
    pub registrar_call: RegistrarCall,
}

/// The exact mint creation the instruction establishes: precision from
/// the parameters, authority and funding from the payer, rent-exempt
/// balance from the rent source.
pub open spec fn mint_creation_spec(ctx: InitToken, params: InitTokenParams) -> MintCreation {
    MintCreation {
        address: ctx.mint.address,
        decimals: params.decimals,
        mint_authority: ctx.payer.address,
        payer: ctx.payer.address,
        lamports: ctx.rent.minimum_balance,
    }
}

/// The handler's outcome: the prepared operation where every account
/// role is met, and the first unmet role's error otherwise.
pub open spec fn handler_outcome(
    ctx: InitToken,
    program_id: Seq<u8>,
    known: KnownPrograms,
    params: InitTokenParams,
) -> Result<PreparedToken, TokenError> {
    match validation_outcome(ctx, program_id, known) {
        Ok(u) => Ok(
            PreparedToken {
                mint_creation: mint_creation_spec(ctx, params),
                registrar_call: registrar_call_spec(ctx, params),
            },
        ),
        Err(e) => Err(e),
    }
}

/// Validates the account bundle and prepares the whole operation, exactly
/// as `handler_outcome` states: `Ok` holds the mint creation and the
/// registrar call if and only if every account role is met, and otherwise
/// the first unmet role's error is returned and nothing is prepared.
pub fn initiate_token(
    ctx: &InitToken,
    program_id: &Address,
    known: &KnownPrograms,
    params: InitTokenParams,
) -> (r: Result<PreparedToken, TokenError>)
    ensures
        r == handler_outcome(*ctx, program_id@, *known, params),
{
    match validate_accounts(ctx, program_id, known) {
        Ok(u) => {
            let mint_creation = MintCreation {
                address: ctx.mint.address.clone(),
                decimals: params.decimals,
                mint_authority: ctx.payer.address.clone(),
                payer: ctx.payer.address.clone(),
                lamports: ctx.rent.minimum_balance,
            };
            let registrar_call = build_registrar_call(ctx, params);
            Ok(PreparedToken { mint_creation, registrar_call })
        },
        Err(e) => Err(e),
    }
}

/// Duplicate creation is rejected: once a call has created the mint, the
/// target account exists, and a second invocation aimed at the same
/// derived address fails during validation — before any external call —
/// so it creates nothing.
pub proof fn lemma_duplicate_creation_rejected(
    ctx: InitToken,
    program_id: Seq<u8>,
    known: KnownPrograms,
    params: InitTokenParams,
)
    requires
        ctx.mint.is_initialized,
    ensures
        handler_outcome(ctx, program_id, known, params) is Err,
{
}

/// Insufficient payer balance fails the whole operation: the handler
/// returns an error and assembles no registrar call, so no account is
/// created and no metadata is recorded.
pub proof fn lemma_insufficient_funds_rejected(
    ctx: InitToken,
    program_id: Seq<u8>,
    known: KnownPrograms,
    params: InitTokenParams,
)
    requires
        ctx.payer.lamports < ctx.rent.minimum_balance,
    ensures
        handler_outcome(ctx, program_id, known, params) is Err,
{
}

/// A disambiguation byte that does not reproduce the mint target's
/// address fails validation, so the handler returns before any external
/// call is assembled.
pub proof fn lemma_derivation_mismatch_rejected(
    ctx: InitToken,
    program_id: Seq<u8>,
    known: KnownPrograms,
    params: InitTokenParams,
)
    requires
        crate::pda::mint_pda(ctx.mint_bump, program_id) != Some(ctx.mint.address@),
    ensures
        handler_outcome(ctx, program_id, known, params) is Err,
{
}

} // verus!
