use td3_spl_token::accounts::{AccountView, InitToken, KnownPrograms, RentView, TokenError};
use td3_spl_token::addr::Address;
use td3_spl_token::handler::{initiate_token, PreparedToken};
use td3_spl_token::params::InitTokenParams;
use td3_spl_token::pda::{derived_mint_address, MintAuthProof};

fn addr(n: u8) -> Address {
    Address::new([n; 32])
}

fn find_bump(pid: &Address) -> (u8, Address) {
    let mut bump: u8 = 255;
    loop {
        if let Some(a) = derived_mint_address(bump, pid) {
            return (bump, a);
        }
        bump -= 1;
    }
}

fn known() -> KnownPrograms {
    KnownPrograms {
        system_program: addr(1),
        token_program: addr(2),
        token_metadata_program: addr(3),
        rent_sysvar: addr(4),
    }
}

fn valid_ctx(pid: &Address) -> InitToken {
    let (bump, mint_addr) = find_bump(pid);
    InitToken {
        metadata: AccountView {
            address: addr(9),
            lamports: 0,
            is_signer: false,
            is_writable: true,
            is_initialized: false,
        },
        mint: AccountView {
            address: mint_addr,
            lamports: 0,
            is_signer: false,
            is_writable: true,
            is_initialized: false,
        },
        payer: AccountView {
            address: addr(7),
            lamports: 10_000_000,
            is_signer: true,
            is_writable: true,
            is_initialized: true,
        },
        rent: RentView { address: addr(4), minimum_balance: 1_461_600 },
        system_program: addr(1),
        token_program: addr(2),
        token_metadata_program: addr(3),
        mint_bump: bump,
    }
}

fn my_token_params() -> InitTokenParams {
    InitTokenParams {
        name: "MyToken".to_string(),
        symbol: "MTK".to_string(),
        uri: "https://example.com/meta.json".to_string(),
        decimals: 9,
    }
}

fn expect_err(ctx: &InitToken, pid: &Address, expected: TokenError) {
    match initiate_token(ctx, pid, &known(), my_token_params()) {
        Err(e) => assert_eq!(e, expected),
        Ok(_) => panic!("expected the operation to fail"),
    }
}

fn expect_ok(ctx: &InitToken, pid: &Address) -> PreparedToken {
    match initiate_token(ctx, pid, &known(), my_token_params()) {
        Ok(t) => t,
        Err(e) => panic!("expected success, got {:?}", e),
    }
}

#[test]
fn derivation_is_deterministic() {
    let pid = addr(5);
    let mut bump: u8 = 0;
    loop {
        let a = derived_mint_address(bump, &pid);
        let b = derived_mint_address(bump, &pid);
        match (a, b) {
            (Some(x), Some(y)) => assert_eq!(x.to_bytes(), y.to_bytes()),
            (None, None) => {}
            _ => panic!("derivation was not deterministic"),
        }
        if bump == 255 {
            break;
        }
        bump += 1;
    }
}

#[test]
fn derivation_matches_runtime_reference() {
    let pid_bytes = [42u8; 32];
    let pid = Address::new(pid_bytes);
    let (bump, derived) = find_bump(&pid);
    let runtime_pid = anchor_lang::solana_program::pubkey::Pubkey::new_from_array(pid_bytes);
    let (expected, expected_bump) =
        anchor_lang::solana_program::pubkey::Pubkey::find_program_address(&[b"mint"], &runtime_pid);
    assert_eq!(bump, expected_bump);
    assert_eq!(derived.to_bytes(), expected.to_bytes());
}

#[test]
fn successful_call_builds_expected_records() {
    let pid = addr(42);
    let ctx = valid_ctx(&pid);
    let prepared = expect_ok(&ctx, &pid);
    assert_eq!(prepared.mint_creation.decimals, 9);
    assert!(prepared.mint_creation.address == ctx.mint.address);
    assert!(prepared.mint_creation.mint_authority == ctx.payer.address);
    assert!(prepared.mint_creation.payer == ctx.payer.address);
    assert_eq!(prepared.mint_creation.lamports, 1_461_600);
    let call = prepared.registrar_call;
    assert_eq!(call.data.name, "MyToken");
    assert_eq!(call.data.symbol, "MTK");
    assert_eq!(call.data.uri, "https://example.com/meta.json");
    assert_eq!(call.data.seller_fee_basis_points, 0);
    assert!(call.data.creators.is_none());
    assert!(call.data.collection.is_none());
    assert!(call.data.uses.is_none());
    assert!(!call.is_mutable);
    assert!(call.update_authority_is_signer);
    assert!(call.collection_details.is_none());
    assert!(call.program == ctx.token_metadata_program);
    assert!(call.payer == ctx.payer.address);
    assert!(call.update_authority == ctx.mint.address);
    assert!(call.mint == ctx.mint.address);
    assert!(call.metadata == ctx.metadata.address);
    assert!(call.mint_authority == ctx.mint.address);
    assert!(call.system_program == ctx.system_program);
    assert!(call.rent == ctx.rent.address);
    assert_eq!(call.signer.bump, ctx.mint_bump);
}

#[test]
fn duplicate_creation_is_rejected() {
    let pid = addr(42);
    let mut ctx = valid_ctx(&pid);
    ctx.mint.is_initialized = true;
    expect_err(&ctx, &pid, TokenError::MintAlreadyInUse);
}

#[test]
fn insufficient_payer_balance_is_rejected() {
    let pid = addr(42);
    let mut ctx = valid_ctx(&pid);
    ctx.payer.lamports = ctx.rent.minimum_balance - 1;
    expect_err(&ctx, &pid, TokenError::InsufficientFunds);
}

#[test]
fn wrong_disambiguation_byte_is_rejected() {
    let pid = addr(42);
    let mut ctx = valid_ctx(&pid);
    ctx.mint_bump = ctx.mint_bump.wrapping_sub(1);
    expect_err(&ctx, &pid, TokenError::DerivationMismatch);
}

#[test]
fn unwritable_metadata_is_rejected() {
    let pid = addr(42);
    let mut ctx = valid_ctx(&pid);
    ctx.metadata.is_writable = false;
    expect_err(&ctx, &pid, TokenError::MetadataNotWritable);
}

#[test]
fn unwritable_mint_is_rejected() {
    let pid = addr(42);
    let mut ctx = valid_ctx(&pid);
    ctx.mint.is_writable = false;
    expect_err(&ctx, &pid, TokenError::MintNotWritable);
}

#[test]
fn unsigned_payer_is_rejected() {
    let pid = addr(42);
    let mut ctx = valid_ctx(&pid);
    ctx.payer.is_signer = false;
    expect_err(&ctx, &pid, TokenError::PayerNotSigner);
}

#[test]
fn unwritable_payer_is_rejected() {
    let pid = addr(42);
    let mut ctx = valid_ctx(&pid);
    ctx.payer.is_writable = false;
    expect_err(&ctx, &pid, TokenError::PayerNotWritable);
}

#[test]
fn wrong_rent_sysvar_is_rejected() {
    let pid = addr(42);
    let mut ctx = valid_ctx(&pid);
    ctx.rent.address = addr(40);
    expect_err(&ctx, &pid, TokenError::RentSysvarMismatch);
}

#[test]
fn wrong_system_program_is_rejected() {
    let pid = addr(42);
    let mut ctx = valid_ctx(&pid);
    ctx.system_program = addr(41);
    expect_err(&ctx, &pid, TokenError::SystemProgramMismatch);
}

#[test]
fn wrong_token_program_is_rejected() {
    let pid = addr(42);
    let mut ctx = valid_ctx(&pid);
    ctx.token_program = addr(43);
    expect_err(&ctx, &pid, TokenError::TokenProgramMismatch);
}

#[test]
fn wrong_metadata_program_is_rejected() {
    let pid = addr(42);
    let mut ctx = valid_ctx(&pid);
    ctx.token_metadata_program = addr(44);
    expect_err(&ctx, &pid, TokenError::MetadataProgramMismatch);
}

#[test]
fn seed_groups_have_expected_shape() {
    let pid = addr(42);
    let (bump, _) = find_bump(&pid);
    let auth = MintAuthProof { bump };
    let groups = auth.seed_groups();
    assert_eq!(groups.len(), 1);
    assert_eq!(groups[0].len(), 2);
    assert_eq!(groups[0][0], b"mint".to_vec());
    assert_eq!(groups[0][1], vec![bump]);
}
