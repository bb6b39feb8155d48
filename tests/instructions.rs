use anchor_lang::solana_program::pubkey::Pubkey;
use create_token::address::metadata_address;
use create_token::instructions::create_token_mint_with_address;
use create_token::key::{incinerator_id, metadata_program_id, rent_sysvar_id, system_program_id, token_program_id, Key};
use create_token::state::{MintData, SignerAccount, TokenAccountData, TokenError};
use create_token::{
    burn_token, create_token_mint, mint_to, transfer_token, BurnToken, CreateTokenMint,
    MintToToken, TransferToken,
};

fn key(b: u8) -> Key {
    Key::new([b; 32])
}

fn mint(k: u8, authority: Option<Key>, supply: u64) -> MintData {
    MintData { key: key(k), is_initialized: true, decimals: 9, mint_authority: authority, supply, freeze_authority: None }
}

fn account(k: u8, mint: u8, owner: u8, amount: u64) -> TokenAccountData {
    TokenAccountData {
        key: key(k),
        mint: key(mint),
        owner: key(owner),
        amount,
        delegate: None,
        delegated_amount: 0,
        is_frozen: false,
        is_native: false,
    }
}

fn signer(k: u8) -> SignerAccount {
    SignerAccount { key: key(k), is_signer: true }
}

fn new_mint_ctx() -> CreateTokenMint {
    let mint_key = key(7);
    let program = metadata_program_id();
    let metadata = metadata_address(&program, &mint_key).unwrap();
    CreateTokenMint {
        payer: signer(1),
        metadata_account: metadata,
        mint_account: MintData {
            key: mint_key,
            is_initialized: false,
            decimals: 0,
            mint_authority: None,
            supply: 0,
            freeze_authority: Some(key(9)),
        },
        mint_account_is_signer: true,
        token_metadata_program: program,
        token_program: token_program_id(),
        system_program: system_program_id(),
        rent: rent_sysvar_id(),
    }
}

fn create(ctx: &mut CreateTokenMint) -> Result<(), TokenError> {
    create_token_mint(ctx, 9, "Solana Gold".to_string(), "GOLDSOL".to_string(), "https://x/y.json".to_string())
        .map(|_| ())
}

#[test]
fn metadata_address_matches_runtime_derivation() {
    let program = metadata_program_id();
    let mint_key = key(7);
    let p = Pubkey::new_from_array(program.bytes);
    let m = Pubkey::new_from_array(mint_key.bytes);
    let (expected, _) = Pubkey::find_program_address(&[b"metadata", p.as_ref(), m.as_ref()], &p);
    let derived = metadata_address(&program, &mint_key).unwrap();
    assert_eq!(derived.bytes, expected.to_bytes());
    assert_ne!(derived.bytes, program.bytes);
    assert_ne!(derived.bytes, mint_key.bytes);
}

#[test]
fn program_ids_decode_to_known_addresses() {
    assert_eq!(Pubkey::new_from_array(token_program_id().bytes), anchor_spl::token::ID);
    assert_eq!(Pubkey::new_from_array(metadata_program_id().bytes), anchor_spl::metadata::ID);
    assert_eq!(Pubkey::new_from_array(system_program_id().bytes), anchor_lang::system_program::ID);
    assert_eq!(Pubkey::new_from_array(incinerator_id().bytes), anchor_lang::solana_program::incinerator::ID);
    assert_eq!(Pubkey::new_from_array(rent_sysvar_id().bytes), anchor_lang::solana_program::sysvar::rent::ID);
}

#[test]
fn create_mint_sets_up_mint_and_metadata() {
    let mut ctx = new_mint_ctx();
    let m = create_token_mint(&mut ctx, 9, "Solana Gold".to_string(), "GOLDSOL".to_string(), "https://x/y.json".to_string())
        .unwrap();
    assert!(ctx.mint_account.is_initialized);
    assert_eq!(ctx.mint_account.decimals, 9);
    assert_eq!(ctx.mint_account.supply, 0);
    assert!(ctx.mint_account.mint_authority.unwrap() == key(1));
    assert_eq!(m.name, "Solana Gold");
    assert_eq!(m.symbol, "GOLDSOL");
    assert_eq!(m.uri, "https://x/y.json");
    assert!(m.mint == key(7));
    assert!(m.metadata_account == ctx.metadata_account);
    assert!(m.update_authority == key(1));
    assert_eq!(m.seller_fee_basis_points, 0);
    assert!(m.is_mutable);
    assert!(ctx.mint_account.freeze_authority.is_none());
    assert!(m.update_authority_is_signer);
}

#[test]
fn create_mint_twice_fails() {
    let mut ctx = new_mint_ctx();
    assert_eq!(create(&mut ctx), Ok(()));
    assert_eq!(create(&mut ctx), Err(TokenError::AccountAlreadyInitialized));
    assert_eq!(ctx.mint_account.decimals, 9);
}

#[test]
fn create_mint_rejects_wrong_metadata_address() {
    let mut ctx = new_mint_ctx();
    ctx.metadata_account = key(9);
    assert_eq!(create(&mut ctx), Err(TokenError::ConstraintSeeds));
    assert!(!ctx.mint_account.is_initialized);
}

#[test]
fn create_mint_rejects_missing_derivation() {
    let mut ctx = new_mint_ctx();
    let r = create_token_mint_with_address(&mut ctx, None, 0, String::new(), String::new(), String::new());
    assert_eq!(r.map(|_| ()), Err(TokenError::ConstraintSeeds));
}

#[test]
fn create_mint_with_given_address() {
    let mut ctx = new_mint_ctx();
    let addr = ctx.metadata_account;
    let r = create_token_mint_with_address(&mut ctx, Some(addr), 0, String::new(), String::new(), String::new());
    assert!(r.is_ok());
    assert_eq!(ctx.mint_account.decimals, 0);
}

#[test]
fn create_mint_requires_payer_signature() {
    let mut ctx = new_mint_ctx();
    ctx.payer.is_signer = false;
    assert_eq!(create(&mut ctx), Err(TokenError::AccountNotSigner));
}

#[test]
fn create_mint_checks_program_accounts() {
    let mut ctx = new_mint_ctx();
    ctx.token_program = key(3);
    assert_eq!(create(&mut ctx), Err(TokenError::InvalidProgramId));
    let mut ctx = new_mint_ctx();
    ctx.rent = key(3);
    assert_eq!(create(&mut ctx), Err(TokenError::AccountSysvarMismatch));
}

fn mint_ctx(supply: u64, balance: u64) -> MintToToken {
    MintToToken {
        mint: mint(7, Some(key(1)), supply),
        token_account: account(5, 7, 2, balance),
        authority: signer(1),
        token_program: token_program_id(),
    }
}

#[test]
fn mint_to_adds_amount_to_balance_and_supply() {
    let mut ctx = mint_ctx(100, 40);
    assert_eq!(mint_to(&mut ctx, 25), Ok(()));
    assert_eq!(ctx.token_account.amount, 65);
    assert_eq!(ctx.mint.supply, 125);
}

#[test]
fn mint_to_rejects_wrong_authority() {
    let mut ctx = mint_ctx(100, 40);
    ctx.authority = signer(4);
    assert_eq!(mint_to(&mut ctx, 25), Err(TokenError::OwnerMismatch));
    assert_eq!(ctx.token_account.amount, 40);
    assert_eq!(ctx.mint.supply, 100);
}

#[test]
fn mint_to_rejects_fixed_supply() {
    let mut ctx = mint_ctx(100, 40);
    ctx.mint.mint_authority = None;
    assert_eq!(mint_to(&mut ctx, 1), Err(TokenError::FixedSupply));
}

#[test]
fn mint_to_rejects_other_mint_and_uninitialized_mint() {
    let mut ctx = mint_ctx(100, 40);
    ctx.token_account.mint = key(8);
    assert_eq!(mint_to(&mut ctx, 1), Err(TokenError::MintMismatch));
    let mut ctx = mint_ctx(100, 40);
    ctx.mint.is_initialized = false;
    assert_eq!(mint_to(&mut ctx, 1), Err(TokenError::AccountNotInitialized));
}

#[test]
fn mint_to_rejects_overflow_at_largest_supply() {
    let mut ctx = mint_ctx(u64::MAX, 40);
    assert_eq!(mint_to(&mut ctx, 1), Err(TokenError::Overflow));
    let mut ctx = mint_ctx(u64::MAX - 1, 0);
    assert_eq!(mint_to(&mut ctx, 1), Ok(()));
    assert_eq!(ctx.mint.supply, u64::MAX);
}

#[test]
fn mint_to_requires_signature() {
    let mut ctx = mint_ctx(100, 40);
    ctx.authority.is_signer = false;
    assert_eq!(mint_to(&mut ctx, 1), Err(TokenError::AccountNotSigner));
}

fn burn_ctx(supply: u64, balance: u64) -> BurnToken {
    BurnToken {
        mint: mint(7, Some(key(1)), supply),
        token_account: account(5, 7, 2, balance),
        authority: signer(2),
        token_program: token_program_id(),
    }
}

#[test]
fn burn_removes_amount_from_balance_and_supply() {
    let mut ctx = burn_ctx(100, 40);
    assert_eq!(burn_token(&mut ctx, 15), Ok(()));
    assert_eq!(ctx.token_account.amount, 25);
    assert_eq!(ctx.mint.supply, 85);
}

#[test]
fn burn_whole_balance() {
    let mut ctx = burn_ctx(40, 40);
    assert_eq!(burn_token(&mut ctx, 40), Ok(()));
    assert_eq!(ctx.token_account.amount, 0);
    assert_eq!(ctx.mint.supply, 0);
}

#[test]
fn burn_more_than_balance_fails() {
    let mut ctx = burn_ctx(100, 40);
    assert_eq!(burn_token(&mut ctx, 41), Err(TokenError::InsufficientFunds));
    assert_eq!(ctx.token_account.amount, 40);
    assert_eq!(ctx.mint.supply, 100);
}

#[test]
fn burn_rejects_non_owner_and_other_mint() {
    let mut ctx = burn_ctx(100, 40);
    ctx.authority = signer(1);
    assert_eq!(burn_token(&mut ctx, 1), Err(TokenError::OwnerMismatch));
    let mut ctx = burn_ctx(100, 40);
    ctx.token_account.mint = key(8);
    assert_eq!(burn_token(&mut ctx, 1), Err(TokenError::MintMismatch));
}

#[test]
fn burn_rejects_supply_below_amount() {
    let mut ctx = burn_ctx(10, 40);
    assert_eq!(burn_token(&mut ctx, 11), Err(TokenError::Overflow));
}

fn transfer_ctx(from: u64, to: u64) -> TransferToken {
    TransferToken {
        mint: mint(7, Some(key(1)), 1000),
        from: account(5, 7, 2, from),
        to: account(6, 7, 3, to),
        authority: signer(2),
        token_program: token_program_id(),
    }
}

#[test]
fn transfer_moves_amount_and_conserves_total() {
    let mut ctx = transfer_ctx(50, 20);
    assert_eq!(transfer_token(&mut ctx, 30), Ok(()));
    assert_eq!(ctx.from.amount, 20);
    assert_eq!(ctx.to.amount, 50);
    assert_eq!(ctx.from.amount + ctx.to.amount, 70);
}

#[test]
fn transfer_insufficient_balance_fails() {
    let mut ctx = transfer_ctx(50, 20);
    assert_eq!(transfer_token(&mut ctx, 51), Err(TokenError::InsufficientFunds));
    assert_eq!(ctx.from.amount, 50);
    assert_eq!(ctx.to.amount, 20);
}

#[test]
fn transfer_between_mints_fails() {
    let mut ctx = transfer_ctx(50, 20);
    ctx.to.mint = key(8);
    assert_eq!(transfer_token(&mut ctx, 5), Err(TokenError::MintMismatch));
}

#[test]
fn transfer_rejects_non_owner() {
    let mut ctx = transfer_ctx(50, 20);
    ctx.authority = signer(3);
    assert_eq!(transfer_token(&mut ctx, 5), Err(TokenError::OwnerMismatch));
}

#[test]
fn transfer_to_itself_changes_nothing() {
    let mut ctx = transfer_ctx(50, 50);
    ctx.to = ctx.from;
    assert_eq!(transfer_token(&mut ctx, 30), Ok(()));
    assert_eq!(ctx.from.amount, 50);
    assert_eq!(ctx.to.amount, 50);
}

#[test]
fn transfer_rejects_overflow() {
    let mut ctx = transfer_ctx(50, u64::MAX);
    assert_eq!(transfer_token(&mut ctx, 1), Err(TokenError::Overflow));
    assert_eq!(transfer_token(&mut ctx, 0), Ok(()));
}

#[test]
fn transfer_checks_token_program() {
    let mut ctx = transfer_ctx(50, 20);
    ctx.token_program = key(4);
    assert_eq!(transfer_token(&mut ctx, 5), Err(TokenError::InvalidProgramId));
}

#[test]
fn keys_compare_by_bytes() {
    assert!(key(3) == key(3));
    assert!(key(3) != key(4));
    assert_eq!(key(3).to_vec(), vec![3u8; 32]);
}

#[test]
fn create_mint_requires_mint_signature() {
    let mut ctx = new_mint_ctx();
    ctx.mint_account_is_signer = false;
    assert_eq!(create(&mut ctx), Err(TokenError::AccountNotSigner));
    assert!(!ctx.mint_account.is_initialized);
}

#[test]
fn mint_to_rejects_frozen_and_native_accounts() {
    let mut ctx = mint_ctx(100, 40);
    ctx.token_account.is_frozen = true;
    assert_eq!(mint_to(&mut ctx, 1), Err(TokenError::AccountFrozen));
    let mut ctx = mint_ctx(100, 40);
    ctx.token_account.is_native = true;
    assert_eq!(mint_to(&mut ctx, 1), Err(TokenError::NativeNotSupported));
}

#[test]
fn burn_by_delegate_spends_allowance() {
    let mut ctx = burn_ctx(100, 40);
    ctx.token_account.delegate = Some(key(4));
    ctx.token_account.delegated_amount = 10;
    ctx.authority = signer(4);
    assert_eq!(burn_token(&mut ctx, 6), Ok(()));
    assert_eq!(ctx.token_account.amount, 34);
    assert_eq!(ctx.token_account.delegated_amount, 4);
    assert!(ctx.token_account.delegate.unwrap() == key(4));
    assert_eq!(ctx.mint.supply, 94);
    assert_eq!(burn_token(&mut ctx, 5), Err(TokenError::InsufficientFunds));
    assert_eq!(burn_token(&mut ctx, 4), Ok(()));
    assert_eq!(ctx.token_account.delegated_amount, 0);
    assert!(ctx.token_account.delegate.is_none());
}

#[test]
fn burn_from_incinerator_needs_no_owner() {
    let mut ctx = burn_ctx(100, 40);
    ctx.token_account.owner = incinerator_id();
    ctx.authority = signer(4);
    assert_eq!(burn_token(&mut ctx, 40), Ok(()));
    assert_eq!(ctx.token_account.amount, 0);
    assert_eq!(ctx.mint.supply, 60);
}

#[test]
fn burn_rejects_frozen_and_native_accounts() {
    let mut ctx = burn_ctx(100, 40);
    ctx.token_account.is_frozen = true;
    assert_eq!(burn_token(&mut ctx, 1), Err(TokenError::AccountFrozen));
    let mut ctx = burn_ctx(100, 40);
    ctx.token_account.is_native = true;
    assert_eq!(burn_token(&mut ctx, 1), Err(TokenError::NativeNotSupported));
}

#[test]
fn transfer_by_delegate_spends_allowance() {
    let mut ctx = transfer_ctx(50, 20);
    ctx.from.delegate = Some(key(4));
    ctx.from.delegated_amount = 30;
    ctx.authority = signer(4);
    assert_eq!(transfer_token(&mut ctx, 31), Err(TokenError::InsufficientFunds));
    assert_eq!(transfer_token(&mut ctx, 30), Ok(()));
    assert_eq!(ctx.from.amount, 20);
    assert_eq!(ctx.to.amount, 50);
    assert_eq!(ctx.from.delegated_amount, 0);
    assert!(ctx.from.delegate.is_none());
}

#[test]
fn transfer_rejects_frozen_accounts() {
    let mut ctx = transfer_ctx(50, 20);
    ctx.to.is_frozen = true;
    assert_eq!(transfer_token(&mut ctx, 5), Err(TokenError::AccountFrozen));
    assert_eq!(ctx.from.amount, 50);
}
