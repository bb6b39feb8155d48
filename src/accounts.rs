use vstd::prelude::*;

use crate::key::Key;
use crate::state::{MintData, SignerAccount, TokenAccountData};

verus! {

/// The accounts of the instruction that creates a mint and its metadata.
#[derive(Clone, Copy, Debug)]
pub struct CreateTokenMint {
    /// Pays for the new accounts and becomes the mint and update authority.
    pub payer: SignerAccount,
    /// Must be the address derived from "metadata", the metadata program and the mint.
    pub metadata_account: Key,
    /// The mint to create: it must not exist yet.
    pub mint_account: MintData,
    /// Whether the mint account signed: a new account must sign its creation.
    pub mint_account_is_signer: bool,
    pub token_metadata_program: Key,
    pub token_program: Key,
    pub system_program: Key,
    pub rent: Key,
}

/// The accounts of the instruction that mints tokens into a token account.
#[derive(Clone, Copy, Debug)]
pub struct MintToToken {
    pub mint: MintData,
    /// The account that receives the new tokens.
    pub token_account: TokenAccountData,
    /// Must be the mint's authority.
    pub authority: SignerAccount,
    pub token_program: Key,
}

/// The accounts of the instruction that burns tokens from a token account.
#[derive(Clone, Copy, Debug)]
pub struct BurnToken {
    pub mint: MintData,
    /// The account whose tokens are burnt.
    pub token_account: TokenAccountData,
    /// Must be the owner of the token account or its delegate.
    pub authority: SignerAccount,
    pub token_program: Key,
}

/// The accounts of the instruction that moves tokens between two token accounts.
#[derive(Clone, Copy, Debug)]
pub struct TransferToken {
    /// The mint that both token accounts must belong to.
    pub mint: MintData,
    pub from: TokenAccountData,
    pub to: TokenAccountData,
    /// Must be the owner of `from` or its delegate.
    pub authority: SignerAccount,
    pub token_program: Key,
}

} // verus!
