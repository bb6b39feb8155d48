use vstd::prelude::*;

use crate::key::Key;

verus! {

/// An account passed to an instruction together with whether it signed the transaction.
#[derive(Clone, Copy, Debug)]
pub struct SignerAccount {
    pub key: Key,
    pub is_signer: bool,
}

/// What the ledger holds for a mint: its decimals, authority and supply.
#[derive(Clone, Copy, Debug)]
pub struct MintData {
    pub key: Key,
    pub is_initialized: bool,
    pub decimals: u8,
    pub mint_authority: Option<Key>,
    pub supply: u64,
    pub freeze_authority: Option<Key>,
}

/// What the ledger holds for a token account: a balance of one mint for one owner.
#[derive(Clone, Copy, Debug)]
pub struct TokenAccountData {
    pub key: Key,
    pub mint: Key,
    pub owner: Key,
    pub amount: u64,
    /// An account that the owner allowed to spend up to `delegated_amount` of the balance.
    pub delegate: Option<Key>,
    pub delegated_amount: u64,
    /// A frozen account can neither receive nor give tokens.
    pub is_frozen: bool,
    /// An account that wraps the native currency.
    pub is_native: bool,
}

/// The request made to the metadata program to attach display metadata to a new mint.
/// It names no creators, collection, uses or collection details.
#[derive(Debug)]
pub struct TokenMetadata {
    pub metadata_account: Key,
    pub mint: Key,
    pub mint_authority: Key,
    pub payer: Key,
    pub update_authority: Key,
    pub name: String,
    pub symbol: String,
    pub uri: String,
    pub seller_fee_basis_points: u16,
    pub is_mutable: bool,
    pub update_authority_is_signer: bool,
}

/// Why an instruction was refused. The whole request is then void.
#[derive(Clone, Copy, Debug, PartialEq, Eq, Structural)]
pub enum TokenError {
    /// An account that must sign did not.
    AccountNotSigner,
    /// A program account is not the program it must be.
    InvalidProgramId,
    /// The rent account is not the rent sysvar.
    AccountSysvarMismatch,
    /// The metadata account is not the address derived from its seeds.
    ConstraintSeeds,
    /// The mint to create already exists.
    AccountAlreadyInitialized,
    /// The mint has not been created.
    AccountNotInitialized,
    /// A token account belongs to another mint.
    MintMismatch,
    /// The signing authority is not the one the account records.
    OwnerMismatch,
    /// The mint has no mint authority: its supply cannot grow.
    FixedSupply,
    /// A token account is frozen.
    AccountFrozen,
    /// The token account wraps the native currency, which cannot be minted or burnt.
    NativeNotSupported,
    /// The source balance, or the delegate's allowance, is below the amount.
    InsufficientFunds,
    /// A balance or the supply would leave the range of `u64`.
    Overflow,
}

/// The result that an instruction returns given its first failed check, if any.
pub open spec fn outcome(e: Option<TokenError>) -> Result<(), TokenError> {
    match e {
        Some(e) => Err(e),
        None => Ok(()),
    }
}

} // verus!
