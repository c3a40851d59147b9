//! The issuing of a collectible: one token of a fresh mint, then its metadata.

use vstd::prelude::*;
use crate::cpi::{CreateMetadataAccountsV3, DataV2, IssueEvent, IssueStep, MintTo};
use crate::error::ErrorCode;
use crate::pubkey::Pubkey;

verus! {

/// The minting of the collectible's single token: `payer`, the mint's
/// authority, mints one token of `mint` into `token_account`.
pub open spec fn single_token(payer: Pubkey, mint: Pubkey, token_account: Pubkey) -> MintTo {
    MintTo { mint, to: token_account, authority: payer, amount: 1 }
}

/// The creation of the collectible's metadata: title, symbol and link as
/// given, no royalty, no creators, collection or uses, never to be changed,
/// and `payer` as the authority that pays and signs.
pub open spec fn fixed_metadata(
    payer: Pubkey,
    mint: Pubkey,
    metadata: Pubkey,
    title: String,
    symbol: String,
    uri: String,
) -> CreateMetadataAccountsV3 {
    CreateMetadataAccountsV3 {
        metadata,
        mint,
        mint_authority: payer,
        payer,
        update_authority: payer,
        data: DataV2 {
            name: title,
            symbol,
            uri,
            seller_fee_basis_points: 0,
            creators: None,
            collection: None,
            uses: None,
        },
        is_mutable: false,
        update_authority_is_signer: true,
        collection_details: None,
    }
}

/// What the issuing of a collectible does at `event`: it mints first, describes
/// the token once that is done, and ends once that is done too; a refusal by
/// either program ends it with that program's code.
pub open spec fn issue_step(
    payer: Pubkey,
    mint: Pubkey,
    token_account: Pubkey,
    metadata: Pubkey,
    title: String,
    symbol: String,
    uri: String,
    event: IssueEvent,
) -> Result<IssueStep, ErrorCode> {
    match event {
        IssueEvent::Entered => Ok(IssueStep::MintTo(single_token(payer, mint, token_account))),
        IssueEvent::Minted => Ok(
            IssueStep::CreateMetadata(fixed_metadata(payer, mint, metadata, title, symbol, uri)),
        ),
        IssueEvent::Described => Ok(IssueStep::Done),
        IssueEvent::Failed(code) => Err(ErrorCode::InvocationFailed(code)),
    }
}

/// Issues a collectible step by step.
pub fn issue(
    payer: Pubkey,
    mint: Pubkey,
    token_account: Pubkey,
    metadata: Pubkey,
    title: String,
    symbol: String,
    uri: String,
    event: IssueEvent,
) -> (step: Result<IssueStep, ErrorCode>)
    ensures
        step == issue_step(payer, mint, token_account, metadata, title, symbol, uri, event),
{
    match event {
        IssueEvent::Entered => Ok(
            IssueStep::MintTo(MintTo { mint, to: token_account, authority: payer, amount: 1 }),
        ),
        IssueEvent::Minted => {
            let data = DataV2 {
                name: title,
                symbol,
                uri,
                seller_fee_basis_points: 0,
                creators: None,
                collection: None,
                uses: None,
            };
            Ok(
                IssueStep::CreateMetadata(
                    CreateMetadataAccountsV3 {
                        metadata,
                        mint,
                        mint_authority: payer,
                        payer,
                        update_authority: payer,
                        data,
                        is_mutable: false,
                        update_authority_is_signer: true,
                        collection_details: None,
                    },
                ),
            )
        },
        IssueEvent::Described => Ok(IssueStep::Done),
        IssueEvent::Failed(code) => Err(ErrorCode::InvocationFailed(code)),
    }
}

} // verus!
