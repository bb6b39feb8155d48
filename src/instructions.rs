use vstd::prelude::*;

use crate::accounts::{BurnToken, CreateTokenMint, MintToToken, TransferToken};
use crate::address::{key_option_view, metadata_address, spec_metadata_address};
use crate::key::{
    metadata_program_id, rent_sysvar_id, spec_metadata_program_id, spec_rent_sysvar_id,
    spec_incinerator_id, spec_system_program_id, spec_token_program_id, system_program_id, token_program_id, incinerator_id, Key,
};
use crate::state::{outcome, MintData, TokenAccountData, TokenError, TokenMetadata};

verus! {

// ---- minting ----

/// The first check that refuses minting `amount`, if any: the account constraints, then
/// the token program's rules for minting.
pub open spec fn mint_to_error(ctx: MintToToken, amount: u64) -> Option<TokenError> {
    if !ctx.authority.is_signer {
        Some(TokenError::AccountNotSigner)
    } else if ctx.token_program@ != spec_token_program_id()@ {
        Some(TokenError::InvalidProgramId)
    } else if !ctx.mint.is_initialized {
        Some(TokenError::AccountNotInitialized)
    } else if ctx.token_account.is_frozen {
        Some(TokenError::AccountFrozen)
    } else if ctx.token_account.is_native {
        Some(TokenError::NativeNotSupported)
    } else if ctx.token_account.mint@ != ctx.mint.key@ {
        Some(TokenError::MintMismatch)
    } else {
        match ctx.mint.mint_authority {
            None => Some(TokenError::FixedSupply),
            Some(a) => if a@ != ctx.authority.key@ {
                Some(TokenError::OwnerMismatch)
            } else if ctx.token_account.amount + amount > u64::MAX || ctx.mint.supply + amount
                > u64::MAX {
                Some(TokenError::Overflow)
            } else {
                None
            },
        }
    }
}

/// The accounts after `amount` new tokens went to the token account.
pub open spec fn minted(ctx: MintToToken, amount: u64) -> MintToToken {
    MintToToken {
        mint: MintData { supply: (ctx.mint.supply + amount) as u64, ..ctx.mint },
        token_account: TokenAccountData {
            amount: (ctx.token_account.amount + amount) as u64,
            ..ctx.token_account
        },
        ..ctx
    }
}

/// Mints `amount` tokens into `ctx.token_account` under the mint's authority.
pub fn mint_to(ctx: &mut MintToToken, amount: u64) -> (r: Result<(), TokenError>)
    ensures
        r == outcome(mint_to_error(*old(ctx), amount)),
        r is Ok ==> final(ctx).token_account.amount == old(ctx).token_account.amount + amount,
        r is Ok ==> final(ctx).mint.supply == old(ctx).mint.supply + amount,
        r is Ok ==> *final(ctx) == minted(*old(ctx), amount),
        r is Err ==> *final(ctx) == *old(ctx),
{
    if !ctx.authority.is_signer {
        return Err(TokenError::AccountNotSigner);
    }
    if !(ctx.token_program == token_program_id()) {
        return Err(TokenError::InvalidProgramId);
    }
    if !ctx.mint.is_initialized {
        return Err(TokenError::AccountNotInitialized);
    }
    if ctx.token_account.is_frozen {
        return Err(TokenError::AccountFrozen);
    }
    if ctx.token_account.is_native {
        return Err(TokenError::NativeNotSupported);
    }
    if !(ctx.token_account.mint == ctx.mint.key) {
        return Err(TokenError::MintMismatch);
    }
    match &ctx.mint.mint_authority {
        None => {
            return Err(TokenError::FixedSupply);
        },
        Some(a) => {
            if !(*a == ctx.authority.key) {
                return Err(TokenError::OwnerMismatch);
            }
        },
    }
    if amount > u64::MAX - ctx.token_account.amount || amount > u64::MAX - ctx.mint.supply {
        return Err(TokenError::Overflow);
    }
    ctx.token_account.amount = ctx.token_account.amount + amount;
    ctx.mint.supply = ctx.mint.supply + amount;
    Ok(())
}

// ---- delegates ----

/// `authority` acts as the delegate of `account` rather than as its owner.
pub open spec fn signs_as_delegate(account: TokenAccountData, authority: Key) -> bool {
    match account.delegate {
        Some(d) => d@ == authority@,
        None => false,
    }
}

/// `account` after its delegate spent `amount` of its allowance; an allowance spent to
/// zero ends the delegation.
pub open spec fn spend_allowance(account: TokenAccountData, amount: u64) -> TokenAccountData {
    TokenAccountData {
        delegated_amount: (account.delegated_amount - amount) as u64,
        delegate: if account.delegated_amount == amount {
            None
        } else {
            account.delegate
        },
        ..account
    }
}

fn is_delegate(account: &TokenAccountData, authority: &Key) -> (r: bool)
    ensures
        r == signs_as_delegate(*account, *authority),
{
    match &account.delegate {
        Some(d) => *d == *authority,
        None => false,
    }
}

fn spend_allowance_of(account: &mut TokenAccountData, amount: u64)
    requires
        amount <= old(account).delegated_amount,
    ensures
        *final(account) == spend_allowance(*old(account), amount),
{
    account.delegated_amount = account.delegated_amount - amount;
    if account.delegated_amount == 0 {
        account.delegate = None;
    }
}

// ---- burning ----

/// Tokens of an account owned by the system program or by the incinerator can be burnt
/// by any signer.
pub open spec fn burn_needs_no_authority(account: TokenAccountData) -> bool {
    account.owner@ == spec_system_program_id()@ || account.owner@ == spec_incinerator_id()@
}

/// The burn of `ctx` spends the allowance of the token account's delegate.
pub open spec fn burn_by_delegate(ctx: BurnToken) -> bool {
    !burn_needs_no_authority(ctx.token_account) && signs_as_delegate(
        ctx.token_account,
        ctx.authority.key,
    )
}

/// The first check that refuses burning `amount`, if any: the account constraints, then
/// the token program's rules for burning.
pub open spec fn burn_error(ctx: BurnToken, amount: u64) -> Option<TokenError> {
    if !ctx.authority.is_signer {
        Some(TokenError::AccountNotSigner)
    } else if ctx.token_program@ != spec_token_program_id()@ {
        Some(TokenError::InvalidProgramId)
    } else if !ctx.mint.is_initialized {
        Some(TokenError::AccountNotInitialized)
    } else if ctx.token_account.is_frozen {
        Some(TokenError::AccountFrozen)
    } else if ctx.token_account.is_native {
        Some(TokenError::NativeNotSupported)
    } else if amount > ctx.token_account.amount {
        Some(TokenError::InsufficientFunds)
    } else if ctx.token_account.mint@ != ctx.mint.key@ {
        Some(TokenError::MintMismatch)
    } else if burn_by_delegate(ctx) && amount > ctx.token_account.delegated_amount {
        Some(TokenError::InsufficientFunds)
    } else if !burn_needs_no_authority(ctx.token_account) && !burn_by_delegate(ctx)
        && ctx.token_account.owner@ != ctx.authority.key@ {
        Some(TokenError::OwnerMismatch)
    } else if amount > ctx.mint.supply {
        Some(TokenError::Overflow)
    } else {
        None
    }
}

/// The accounts after `amount` tokens of the token account were destroyed.
pub open spec fn burnt(ctx: BurnToken, amount: u64) -> BurnToken {
    let account = if burn_by_delegate(ctx) {
        spend_allowance(ctx.token_account, amount)
    } else {
        ctx.token_account
    };
    BurnToken {
        mint: MintData { supply: (ctx.mint.supply - amount) as u64, ..ctx.mint },
        token_account: TokenAccountData { amount: (account.amount - amount) as u64, ..account },
        ..ctx
    }
}

/// Burns `amount` tokens of `ctx.token_account`, signed by its owner or its delegate.
pub fn burn_token(ctx: &mut BurnToken, amount: u64) -> (r: Result<(), TokenError>)
    ensures
        r == outcome(burn_error(*old(ctx), amount)),
        amount > old(ctx).token_account.amount ==> r is Err,
        r is Ok ==> final(ctx).token_account.amount == old(ctx).token_account.amount - amount,
        r is Ok ==> final(ctx).mint.supply == old(ctx).mint.supply - amount,
        r is Ok ==> *final(ctx) == burnt(*old(ctx), amount),
        r is Err ==> *final(ctx) == *old(ctx),
{
    if !ctx.authority.is_signer {
        return Err(TokenError::AccountNotSigner);
    }
    if !(ctx.token_program == token_program_id()) {
        return Err(TokenError::InvalidProgramId);
    }
    if !ctx.mint.is_initialized {
        return Err(TokenError::AccountNotInitialized);
    }
    if ctx.token_account.is_frozen {
        return Err(TokenError::AccountFrozen);
    }
    if ctx.token_account.is_native {
        return Err(TokenError::NativeNotSupported);
    }
    if amount > ctx.token_account.amount {
        return Err(TokenError::InsufficientFunds);
    }
    if !(ctx.token_account.mint == ctx.mint.key) {
        return Err(TokenError::MintMismatch);
    }
    let exempt = ctx.token_account.owner == system_program_id() || ctx.token_account.owner
        == incinerator_id();
    let by_delegate = !exempt && is_delegate(&ctx.token_account, &ctx.authority.key);
    if by_delegate && amount > ctx.token_account.delegated_amount {
        return Err(TokenError::InsufficientFunds);
    }
    if !exempt && !by_delegate && !(ctx.token_account.owner == ctx.authority.key) {
        return Err(TokenError::OwnerMismatch);
    }
    if amount > ctx.mint.supply {
        return Err(TokenError::Overflow);
    }
    if by_delegate {
        spend_allowance_of(&mut ctx.token_account, amount);
    }
    ctx.token_account.amount = ctx.token_account.amount - amount;
    ctx.mint.supply = ctx.mint.supply - amount;
    Ok(())
}

// ---- transferring ----

/// The first check that refuses moving `amount`, if any: the account constraints, then
/// the token program's rules for transfers.
pub open spec fn transfer_error(ctx: TransferToken, amount: u64) -> Option<TokenError> {
    if !ctx.authority.is_signer {
        Some(TokenError::AccountNotSigner)
    } else if ctx.token_program@ != spec_token_program_id()@ {
        Some(TokenError::InvalidProgramId)
    } else if !ctx.mint.is_initialized {
        Some(TokenError::AccountNotInitialized)
    } else if ctx.from.mint@ != ctx.mint.key@ || ctx.to.mint@ != ctx.mint.key@ {
        Some(TokenError::MintMismatch)
    } else if ctx.from.is_frozen || ctx.to.is_frozen {
        Some(TokenError::AccountFrozen)
    } else if amount > ctx.from.amount {
        Some(TokenError::InsufficientFunds)
    } else if signs_as_delegate(ctx.from, ctx.authority.key) && amount
        > ctx.from.delegated_amount {
        Some(TokenError::InsufficientFunds)
    } else if !signs_as_delegate(ctx.from, ctx.authority.key) && ctx.from.owner@
        != ctx.authority.key@ {
        Some(TokenError::OwnerMismatch)
    } else if ctx.from.key@ != ctx.to.key@ && ctx.to.amount + amount > u64::MAX {
        Some(TokenError::Overflow)
    } else {
        None
    }
}

/// The accounts after `amount` tokens moved from `from` to `to`, spending the delegate's
/// allowance where the delegate signed; a transfer of an account to itself changes nothing.
pub open spec fn transferred(ctx: TransferToken, amount: u64) -> TransferToken {
    if ctx.from.key@ == ctx.to.key@ {
        ctx
    } else {
        let from = if signs_as_delegate(ctx.from, ctx.authority.key) {
            spend_allowance(ctx.from, amount)
        } else {
            ctx.from
        };
        TransferToken {
            from: TokenAccountData { amount: (from.amount - amount) as u64, ..from },
            to: TokenAccountData { amount: (ctx.to.amount + amount) as u64, ..ctx.to },
            ..ctx
        }
    }
}

/// Moves `amount` tokens from `ctx.from` to `ctx.to`, signed by the owner of `ctx.from`
/// or its delegate.
pub fn transfer_token(ctx: &mut TransferToken, amount: u64) -> (r: Result<(), TokenError>)
    ensures
        r == outcome(transfer_error(*old(ctx), amount)),
        amount > old(ctx).from.amount ==> r is Err,
        old(ctx).from.mint@ != old(ctx).to.mint@ ==> r is Err,
        r is Ok ==> final(ctx).from.amount + final(ctx).to.amount == old(ctx).from.amount
            + old(ctx).to.amount,
        r is Ok && old(ctx).from.key@ != old(ctx).to.key@ ==> final(ctx).from.amount == old(
            ctx,
        ).from.amount - amount && final(ctx).to.amount == old(ctx).to.amount + amount,
        r is Ok ==> *final(ctx) == transferred(*old(ctx), amount),
        r is Err ==> *final(ctx) == *old(ctx),
{
    if !ctx.authority.is_signer {
        return Err(TokenError::AccountNotSigner);
    }
    if !(ctx.token_program == token_program_id()) {
        return Err(TokenError::InvalidProgramId);
    }
    if !ctx.mint.is_initialized {
        return Err(TokenError::AccountNotInitialized);
    }
    if !(ctx.from.mint == ctx.mint.key) || !(ctx.to.mint == ctx.mint.key) {
        return Err(TokenError::MintMismatch);
    }
    if ctx.from.is_frozen || ctx.to.is_frozen {
        return Err(TokenError::AccountFrozen);
    }
    if amount > ctx.from.amount {
        return Err(TokenError::InsufficientFunds);
    }
    let by_delegate = is_delegate(&ctx.from, &ctx.authority.key);
    if by_delegate && amount > ctx.from.delegated_amount {
        return Err(TokenError::InsufficientFunds);
    }
    if !by_delegate && !(ctx.from.owner == ctx.authority.key) {
        return Err(TokenError::OwnerMismatch);
    }
    if ctx.from.key == ctx.to.key {
        return Ok(());
    }
    if amount > u64::MAX - ctx.to.amount {
        return Err(TokenError::Overflow);
    }
    if by_delegate {
        spend_allowance_of(&mut ctx.from, amount);
    }
    ctx.from.amount = ctx.from.amount - amount;
    ctx.to.amount = ctx.to.amount + amount;
    Ok(())
}

// ---- creating a mint ----

/// The first check that refuses creating the mint, given the address `derived` for its
/// metadata account (`None` where no address could be derived).
pub open spec fn create_token_mint_error(ctx: CreateTokenMint, derived: Option<Seq<u8>>) -> Option<
    TokenError,
> {
    if !ctx.payer.is_signer || !ctx.mint_account_is_signer {
        Some(TokenError::AccountNotSigner)
    } else if ctx.token_metadata_program@ != spec_metadata_program_id()@
        || ctx.token_program@ != spec_token_program_id()@ || ctx.system_program@
        != spec_system_program_id()@ {
        Some(TokenError::InvalidProgramId)
    } else if ctx.rent@ != spec_rent_sysvar_id()@ {
        Some(TokenError::AccountSysvarMismatch)
    } else if derived != Some(ctx.metadata_account@) {
        Some(TokenError::ConstraintSeeds)
    } else if ctx.mint_account.is_initialized {
        Some(TokenError::AccountAlreadyInitialized)
    } else {
        None
    }
}

/// The address that the metadata account of the mint must have.
pub open spec fn derived_metadata_address(ctx: CreateTokenMint) -> Option<Seq<u8>> {
    spec_metadata_address(ctx.token_metadata_program@, ctx.mint_account.key@)
}

/// The accounts after the mint was created with `decimals`, no supply, the payer as its
/// mint authority and no freeze authority.
pub open spec fn created(ctx: CreateTokenMint, decimals: u8) -> CreateTokenMint {
    CreateTokenMint {
        mint_account: MintData {
            is_initialized: true,
            decimals,
            mint_authority: Some(ctx.payer.key),
            supply: 0,
            freeze_authority: None,
            ..ctx.mint_account
        },
        ..ctx
    }
}

/// `m` asks the metadata program to attach `name`, `symbol` and `uri` to the mint of `ctx`,
/// with the payer as every authority and no seller fee; the metadata stays open to updates
/// by its update authority.
pub open spec fn requested_metadata(
    m: TokenMetadata,
    ctx: CreateTokenMint,
    name: Seq<char>,
    symbol: Seq<char>,
    uri: Seq<char>,
) -> bool {
    &&& m.metadata_account == ctx.metadata_account
    &&& m.mint == ctx.mint_account.key
    &&& m.mint_authority == ctx.payer.key
    &&& m.payer == ctx.payer.key
    &&& m.update_authority == ctx.payer.key
    &&& m.name@ == name
    &&& m.symbol@ == symbol
    &&& m.uri@ == uri
    &&& m.seller_fee_basis_points == 0
    &&& m.is_mutable
    &&& m.update_authority_is_signer
}

/// Creates the mint of `ctx` once the address of its metadata account has been derived
/// (`derived`), and returns the metadata to attach to it.
pub fn create_token_mint_with_address(
    ctx: &mut CreateTokenMint,
    derived: Option<Key>,
    token_decimals: u8,
    token_name: String,
    token_symbol: String,
    token_uri: String,
) -> (r: Result<TokenMetadata, TokenError>)
    ensures
        create_token_mint_error(*old(ctx), key_option_view(derived)) matches Some(e) ==> r
            == Err::<TokenMetadata, TokenError>(e) && *final(ctx) == *old(ctx),
        create_token_mint_error(*old(ctx), key_option_view(derived)) is None ==> r is Ok
            && *final(ctx) == created(*old(ctx), token_decimals) && requested_metadata(
            r->Ok_0,
            *old(ctx),
            token_name@,
            token_symbol@,
            token_uri@,
        ),
{
    if !ctx.payer.is_signer || !ctx.mint_account_is_signer {
        return Err(TokenError::AccountNotSigner);
    }
    if !(ctx.token_metadata_program == metadata_program_id()) || !(ctx.token_program
        == token_program_id()) || !(ctx.system_program == system_program_id()) {
        return Err(TokenError::InvalidProgramId);
    }
    if !(ctx.rent == rent_sysvar_id()) {
        return Err(TokenError::AccountSysvarMismatch);
    }
    match derived {
        None => {
            return Err(TokenError::ConstraintSeeds);
        },
        Some(k) => {
            if !(k == ctx.metadata_account) {
                return Err(TokenError::ConstraintSeeds);
            }
        },
    }
    if ctx.mint_account.is_initialized {
        return Err(TokenError::AccountAlreadyInitialized);
    }
    ctx.mint_account.is_initialized = true;
    ctx.mint_account.decimals = token_decimals;
    ctx.mint_account.mint_authority = Some(ctx.payer.key);
    ctx.mint_account.supply = 0;
    ctx.mint_account.freeze_authority = None;
    Ok(
        TokenMetadata {
            metadata_account: ctx.metadata_account,
            mint: ctx.mint_account.key,
            mint_authority: ctx.payer.key,
            payer: ctx.payer.key,
            update_authority: ctx.payer.key,
            name: token_name,
            symbol: token_symbol,
            uri: token_uri,
            seller_fee_basis_points: 0,
            is_mutable: true,
            update_authority_is_signer: true,
        },
    )
}

/// Creates the mint of `ctx` with `token_decimals`, under the payer's authority, and
/// returns the metadata to attach to it.
pub fn create_token_mint(
    ctx: &mut CreateTokenMint,
    token_decimals: u8,
    token_name: String,
    token_symbol: String,
    token_uri: String,
) -> (r: Result<TokenMetadata, TokenError>)
    ensures
        create_token_mint_error(*old(ctx), derived_metadata_address(*old(ctx))) matches Some(e)
            ==> r == Err::<TokenMetadata, TokenError>(e) && *final(ctx) == *old(ctx),
        create_token_mint_error(*old(ctx), derived_metadata_address(*old(ctx))) is None ==> r is Ok
            && *final(ctx) == created(*old(ctx), token_decimals) && requested_metadata(
            r->Ok_0,
            *old(ctx),
            token_name@,
            token_symbol@,
            token_uri@,
        ),
{
    let derived = metadata_address(&ctx.token_metadata_program, &ctx.mint_account.key);
    create_token_mint_with_address(ctx, derived, token_decimals, token_name, token_symbol, token_uri)
}

/// Creating a mint a second time with the same accounts fails: once the first call has
/// succeeded, the second finds the mint already initialized.
pub proof fn lemma_create_token_mint_twice(ctx: CreateTokenMint, token_decimals: u8)
    requires
        create_token_mint_error(ctx, derived_metadata_address(ctx)) is None,
    ensures
        create_token_mint_error(
            created(ctx, token_decimals),
            derived_metadata_address(created(ctx, token_decimals)),
        ) == Some(TokenError::AccountAlreadyInitialized),
{
}

} // verus!
