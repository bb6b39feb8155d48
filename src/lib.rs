pub mod accounts;
pub mod address;
pub mod instructions;
pub mod key;
pub mod state;

pub use accounts::{BurnToken, CreateTokenMint, MintToToken, TransferToken};
pub use instructions::{burn_token, create_token_mint, mint_to, transfer_token};
