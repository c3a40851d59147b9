//! What the programs ask of other programs, and what the host reports back.
//!
//! A handler never invokes another program itself. It is run once when its
//! instruction arrives and answers with the instruction to invoke; the host
//! invokes it and runs the handler again with what came of it.

use vstd::prelude::*;
use crate::pubkey::Pubkey;

verus! {

/// What the host reports to a handler that invokes one instruction.
#[derive(Clone, Copy, Debug, PartialEq, Eq, Structural)]
pub enum Event {
    /// The handler's instruction arrived; nothing has been invoked for it.
    Entered,
    /// The instruction that the handler asked for was applied in full.
    Applied,
    /// It was refused with this code, and applied nothing.
    Failed(u64),
}

/// A transfer of tokens between two token accounts, signed by `authority`.
#[derive(Clone, Copy, Debug, PartialEq, Eq)]
pub struct Transfer {
    pub from: Pubkey,
    pub to: Pubkey,
    pub authority: Pubkey,
    pub amount: u64,
}

/// The minting of new tokens of `mint` into the token account `to`, signed by `authority`.
#[derive(Clone, Copy, Debug, PartialEq, Eq)]
pub struct MintTo {
    pub mint: Pubkey,
    pub to: Pubkey,
    pub authority: Pubkey,
    pub amount: u64,
}

/// The burning of tokens of `mint` out of the token account `from`, signed by `authority`.
#[derive(Clone, Copy, Debug, PartialEq, Eq)]
pub struct Burn {
    pub mint: Pubkey,
    pub from: Pubkey,
    pub authority: Pubkey,
    pub amount: u64,
}

/// A token account as far as the programs read it.
#[derive(Clone, Copy, Debug, PartialEq, Eq)]
pub struct TokenAccount {
    /// Where the account lies.
    pub key: Pubkey,
    /// Who may move its tokens.
    pub owner: Pubkey,
}

/// One who made a token and shares in its royalties.
#[derive(Clone, Copy, Debug, PartialEq, Eq)]
pub struct Creator {
    pub address: Pubkey,
    pub verified: bool,
    pub share: u8,
}

/// The collection that a token belongs to.
#[derive(Clone, Copy, Debug, PartialEq, Eq)]
pub struct Collection {
    pub verified: bool,
    pub key: Pubkey,
}

/// How a token is used up.
#[derive(Clone, Copy, Debug, PartialEq, Eq)]
pub enum UseMethod {
    Burn,
    Multiple,
    Single,
}

/// How often a token can be used.
#[derive(Clone, Copy, Debug, PartialEq, Eq)]
pub struct Uses {
    pub use_method: UseMethod,
    pub remaining: u64,
    pub total: u64,
}

/// What the metadata program records of a token.
#[derive(Clone, Debug, PartialEq, Eq)]
pub struct DataV2 {
    pub name: String,
    pub symbol: String,
    pub uri: String,
    /// The royalty on a resale, in hundredths of a percent.
    pub seller_fee_basis_points: u16,
    pub creators: Option<Vec<Creator>>,
    pub collection: Option<Collection>,
    pub uses: Option<Uses>,
}

/// The creation of the metadata account of the token `mint`.
#[derive(Clone, Debug, PartialEq, Eq)]
pub struct CreateMetadataAccountsV3 {
    pub metadata: Pubkey,
    pub mint: Pubkey,
    pub mint_authority: Pubkey,
    pub payer: Pubkey,
    pub update_authority: Pubkey,
    pub data: DataV2,
    pub is_mutable: bool,
    pub update_authority_is_signer: bool,
    /// The size of the collection, where the token is one.
    pub collection_details: Option<u64>,
}

/// What the host reports to a handler that issues a collectible.
#[derive(Clone, Copy, Debug, PartialEq, Eq, Structural)]
pub enum IssueEvent {
    /// The handler's instruction arrived; nothing has been invoked for it.
    Entered,
    /// The token program minted the one token.
    Minted,
    /// The metadata program created the metadata account.
    Described,
    /// The program invoked last refused with this code, and applied nothing.
    Failed(u64),
}

/// What a handler that issues a collectible asks of the host next.
#[derive(Clone, Debug, PartialEq, Eq)]
pub enum IssueStep {
    /// Invoke the token program, then report `Minted` or `Failed`.
    MintTo(MintTo),
    /// Invoke the metadata program, then report `Described` or `Failed`.
    CreateMetadata(CreateMetadataAccountsV3),
    /// Nothing is left to do.
    Done,
}

} // verus!
