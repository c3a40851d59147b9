//! The collectible program: it issues one-of-a-kind tokens to players.

use vstd::prelude::*;
use crate::collectible::{issue, issue_step};
use crate::cpi::{IssueEvent, IssueStep};
use crate::error::ErrorCode;
use crate::pubkey::Pubkey;

verus! {

/// The accounts of `mint_collectible`.
#[derive(Clone, Copy, Debug, PartialEq, Eq)]
pub struct MintCollectible {
    /// The player's wallet, which receives the collectible.
    pub player: Pubkey,
    /// The signer that pays for the accounts and is the mint's authority.
    pub payer: Pubkey,
    /// The fresh mint of this one collectible.
    pub mint: Pubkey,
    /// The player's token account for this mint.
    pub token_account: Pubkey,
    /// The metadata account of the mint.
    pub metadata: Pubkey,
}

/// Mints a collectible to a player: one token of the fresh mint into the
/// player's token account, then the token's metadata.
///
/// Nothing is kept of an issue, so the same titles issue as often as they are
/// asked for, each time for the mint that the accounts name.
pub fn mint_collectible(
    ctx: &MintCollectible,
    metadata_title: String,
    metadata_symbol: String,
    metadata_uri: String,
    event: IssueEvent,
) -> (step: Result<IssueStep, ErrorCode>)
    ensures
        step == issue_step(
            ctx.payer,
            ctx.mint,
            ctx.token_account,
            ctx.metadata,
            metadata_title,
            metadata_symbol,
            metadata_uri,
            event,
        ),
{
    issue(
        ctx.payer,
        ctx.mint,
        ctx.token_account,
        ctx.metadata,
        metadata_title,
        metadata_symbol,
        metadata_uri,
        event,
    )
}

} // verus!
