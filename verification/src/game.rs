//! The game program: collectibles, the treasure vault with its deposits and
//! claims, the token whitelist, the search ledger, and the game's own reward
//! token.

use vstd::prelude::*;
pub use crate::error::ErrorCode;
use crate::collectible::{issue, issue_step};
use crate::cpi::{Burn, Event, IssueEvent, IssueStep, MintTo, TokenAccount, Transfer};
use crate::ledger::Ledger;
use crate::pubkey::{
    derived_address,
    keyed_seeds,
    record_seeds,
    seeds_of_key,
    seeds_of_record,
    seeds_of_signer,
    seeds_of_tag,
    signer_seeds,
    tag_seeds,
    Pubkey,
};
use crate::supply::{check_mint, credit, credited, mint_refusal, net, net_supply, within_cap};

verus! {

/// One whole token, in the smallest units of a token with six decimals.
pub const TOKEN: u64 = 1_000_000;

/// The least that can be hidden as a treasure: 100 whole tokens.
pub const MIN_TREASURE: u64 = 100_000_000;

/// The treasure vault: who governs it, and what passed through it.
#[derive(Clone, Copy, Debug, PartialEq, Eq)]
pub struct TreasureVault {
    /// Who may whitelist tokens and hand the authority on.
    pub authority: Pubkey,
    /// All that was ever hidden.
    pub total_hidden: u64,
    /// The number of treasures claimed.
    pub total_claimed: u64,
    /// The bump seed of the vault's own address.
    pub bump: u8,
}

impl TreasureVault {
    /// The bytes that the stored vault takes.
    pub const LEN: usize = 8 + 32 + 8 + 8 + 1;
}

/// A treasure that a player has hidden.
#[derive(Clone, Copy, Debug, PartialEq, Eq)]
pub struct TreasureRecord {
    /// Who hid it.
    pub player: Pubkey,
    /// How much was hidden.
    pub amount: u64,
    /// The nonce under which the player hid it.
    pub timestamp: i64,
    /// Whether it was claimed.
    pub claimed: bool,
    /// Its tier, 1 to 4.
    pub tier: u8,
    /// The bump seed of the record's own address.
    pub bump: u8,
}

impl TreasureRecord {
    /// The bytes that the stored record takes.
    pub const LEN: usize = 8 + 32 + 8 + 8 + 1 + 1 + 1;
}

/// A search that a player has made at a place on the map.
#[derive(Clone, Copy, Debug, PartialEq, Eq)]
pub struct SearchRecord {
    /// Who searched.
    pub player: Pubkey,
    pub x: i32,
    pub y: i32,
    /// The nonce under which the player searched.
    pub timestamp: i64,
    /// Whether a treasure was found; no instruction of this program sets it.
    pub found: bool,
    /// The bump seed of the record's own address.
    pub bump: u8,
}

impl SearchRecord {
    /// The bytes that the stored record takes.
    pub const LEN: usize = 8 + 32 + 4 + 4 + 8 + 1 + 1;
}

/// The approval of a token as one that can be hidden.
#[derive(Clone, Copy, Debug, PartialEq, Eq)]
pub struct TokenWhitelist {
    /// The approved token mint.
    pub token_mint: Pubkey,
    pub enabled: bool,
    /// The bump seed of the entry's own address.
    pub bump: u8,
}

impl TokenWhitelist {
    /// The bytes that the stored entry takes.
    pub const LEN: usize = 8 + 32 + 1 + 1;
}

/// The supply state of the game's reward token.
#[derive(Clone, Copy, Debug, PartialEq, Eq)]
pub struct BootyState {
    /// The token mint that this state counts for.
    pub mint: Pubkey,
    /// Who set the state up.
    pub authority: Pubkey,
    /// All that was ever minted.
    pub total_mined: u64,
    /// All that was ever burned.
    pub total_burned: u64,
    /// The most that may ever be minted, where there is such a cap.
    pub max_supply: Option<u64>,
    /// The bump seed of the state's own address.
    pub bump: u8,
}

impl BootyState {
    /// The bytes that the stored state takes.
    pub const LEN: usize = 8 + 32 + 32 + 8 + 8 + 1 + 8 + 1;

    /// Whether what was minted respects the cap, where there is one.
    pub open spec fn within_cap(self) -> bool {
        within_cap(self.total_mined, self.max_supply)
    }

    /// The tokens in circulation: what was minted less what was burned; none
    /// where more was burned than minted.
    pub fn net_supply(&self) -> (circulating: Option<u64>)
        ensures
            circulating == net(self.total_mined, self.total_burned),
    {
        net_supply(self.total_mined, self.total_burned)
    }
}

/// The accounts of `mint_nft`.
#[derive(Clone, Copy, Debug, PartialEq, Eq)]
pub struct MintNFT {
    /// The player's wallet, which receives the collectible.
    pub player: Pubkey,
    /// The signer that pays for the accounts and is the mint's authority.
    pub payer: Pubkey,
    /// The fresh mint of this one collectible.
    pub mint: Pubkey,
    /// The player's token account for this mint.
    pub token_account: Pubkey,
    /// The metadata account of the mint.
    pub metadata: Pubkey,
}

/// The accounts of `initialize_vault`.
#[derive(Clone, Copy, Debug, PartialEq, Eq)]
pub struct InitializeVault {
    /// The program, under which the vault's address is derived.
    pub program_id: Pubkey,
    /// What lies at the vault's address: nothing before the set-up.
    pub vault: Option<TreasureVault>,
    /// The signer that sets the vault up.
    pub authority: Pubkey,
}

/// The accounts of `hide_treasure`.
#[derive(Clone, Debug, PartialEq, Eq)]
pub struct HideTreasure {
    /// The program, under which the record's address is derived.
    pub program_id: Pubkey,
    /// The signer that hides the treasure.
    pub player: Pubkey,
    /// The token account that the treasure comes from.
    pub player_token_account: TokenAccount,
    /// The vault's token account, which takes the treasure.
    pub vault_token_account: Pubkey,
    pub vault: TreasureVault,
    /// The treasures hidden so far, each at its derived address.
    pub treasure_records: Ledger<TreasureRecord>,
}

/// The accounts of `claim_treasure`.
#[derive(Clone, Copy, Debug, PartialEq, Eq)]
pub struct ClaimTreasure {
    /// The signer that claims.
    pub player: Pubkey,
    /// The treasure that is claimed.
    pub treasure_record: TreasureRecord,
    pub vault: TreasureVault,
}

/// The accounts of `search_treasure`.
#[derive(Clone, Debug, PartialEq, Eq)]
pub struct SearchTreasure {
    /// The program, under which the record's address is derived.
    pub program_id: Pubkey,
    /// The signer that searches.
    pub player: Pubkey,
    /// The searches made so far, each at its derived address.
    pub search_records: Ledger<SearchRecord>,
}

/// The accounts of `whitelist_token`.
#[derive(Clone, Debug, PartialEq, Eq)]
pub struct WhitelistToken {
    /// The program, under which the entry's address is derived.
    pub program_id: Pubkey,
    /// The whitelist entries made so far, each at its derived address.
    pub whitelist: Ledger<TokenWhitelist>,
    /// The token mint whose entry is written.
    pub token_mint: Pubkey,
    pub vault: TreasureVault,
    /// The signer.
    pub authority: Pubkey,
}

/// The accounts of `update_vault`.
#[derive(Clone, Copy, Debug, PartialEq, Eq)]
pub struct UpdateVault {
    pub vault: TreasureVault,
    /// The signer.
    pub authority: Pubkey,
}

/// The accounts of `initialize_booty_mint`.
#[derive(Clone, Copy, Debug, PartialEq, Eq)]
pub struct InitializeBootyMint {
    /// The program, under which the state's address is derived.
    pub program_id: Pubkey,
    /// The token mint.
    pub booty_mint: Pubkey,
    /// What lies at the state's address: nothing before the set-up.
    pub booty_state: Option<BootyState>,
    /// The signer that sets the token up.
    pub authority: Pubkey,
}

/// The accounts of `mine_booty`.
#[derive(Clone, Copy, Debug, PartialEq, Eq)]
pub struct MineBooty {
    /// The program, under which the state's address is derived.
    pub program_id: Pubkey,
    /// The signer that receives the tokens.
    pub player: Pubkey,
    /// The token mint.
    pub booty_mint: Pubkey,
    /// The player's token account, which receives the tokens.
    pub player_booty_account: Pubkey,
    /// The supply state, which is also the mint's authority.
    pub booty_state: BootyState,
}

/// The accounts of `burn_booty_for_travel`.
#[derive(Clone, Copy, Debug, PartialEq, Eq)]
pub struct BurnBootyForTravel {
    /// The signer whose tokens are burned.
    pub player: Pubkey,
    /// The token mint.
    pub booty_mint: Pubkey,
    /// The player's token account.
    pub player_booty_account: TokenAccount,
    pub booty_state: BootyState,
}

/// The tier of a treasure of `amount`: by its whole tokens, 4 from 100,000,
/// 3 from 10,000, 2 from 1,000, and 1 below.
pub open spec fn tier_of(amount: u64) -> u8 {
    let tokens = amount / TOKEN;
    if tokens >= 100_000 {
        4
    } else if tokens >= 10_000 {
        3
    } else if tokens >= 1_000 {
        2
    } else {
        1
    }
}

/// The tier never falls as the amount grows, and lies between 1 and 4; each
/// tier begins at its whole number of tokens.
pub proof fn lemma_tier_monotone(smaller: u64, larger: u64)
    requires
        smaller <= larger,
    ensures
        1 <= tier_of(smaller) <= tier_of(larger) <= 4,
        tier_of(larger) == 4 <==> larger >= 100_000 * TOKEN,
        tier_of(larger) >= 3 <==> larger >= 10_000 * TOKEN,
        tier_of(larger) >= 2 <==> larger >= 1_000 * TOKEN,
{
}

/// Calculates the tier of a treasure of `amount`.
pub fn calculate_tier(amount: u64) -> (tier: u8)
    ensures
        tier == tier_of(amount),
        1 <= tier <= 4,
{
    let tokens: u64 = amount / TOKEN;
    if tokens >= 100_000 {
        4
    } else if tokens >= 10_000 {
        3
    } else if tokens >= 1_000 {
        2
    } else {
        1
    }
}

/// What `mint_nft` does at `event`: it mints one token of the fresh mint into
/// the player's token account, then has the token described, never to be changed.
pub open spec fn mint_nft_spec(
    ctx: MintNFT,
    metadata_title: String,
    metadata_symbol: String,
    metadata_uri: String,
    event: IssueEvent,
) -> Result<IssueStep, ErrorCode> {
    issue_step(
        ctx.payer,
        ctx.mint,
        ctx.token_account,
        ctx.metadata,
        metadata_title,
        metadata_symbol,
        metadata_uri,
        event,
    )
}

/// Why `initialize_vault` is refused, if it is: the vault exists already, or
/// its address cannot be derived.
pub open spec fn initialize_vault_refusal(ctx: InitializeVault) -> Option<ErrorCode> {
    if ctx.vault.is_some() {
        Some(ErrorCode::AlreadyInitialized)
    } else if derived_address(tag_seeds("vault"), ctx.program_id).is_none() {
        Some(ErrorCode::AddressDerivationExhausted)
    } else {
        None
    }
}

/// What `initialize_vault` does: it creates the vault under the signer's
/// authority, with nothing hidden and nothing claimed.
pub open spec fn initialize_vault_spec(
    pre: InitializeVault,
    post: InitializeVault,
    done: Result<(), ErrorCode>,
) -> bool {
    match initialize_vault_refusal(pre) {
        Some(refusal) => done == Err::<(), ErrorCode>(refusal) && post == pre,
        None => done == Ok::<(), ErrorCode>(()) && post == (InitializeVault {
            vault: Some(
                TreasureVault {
                    authority: pre.authority,
                    total_hidden: 0,
                    total_claimed: 0,
                    bump: derived_address(tag_seeds("vault"), pre.program_id).unwrap().1,
                },
            ),
            ..pre
        }),
    }
}

/// Why `hide_treasure` is refused before anything is invoked, if it is: the
/// token account is not the player's, the amount is below the minimum, the
/// record's address cannot be derived, or the player has hidden a treasure
/// under this nonce before.
pub open spec fn hide_treasure_refusal(ctx: HideTreasure, amount: u64, treasure_id: i64) -> Option<
    ErrorCode,
> {
    if ctx.player_token_account.owner != ctx.player {
        Some(ErrorCode::InvalidHoldingAccount)
    } else if amount < MIN_TREASURE {
        Some(ErrorCode::InsufficientDeposit)
    } else {
        match derived_address(record_seeds("treasure", ctx.player, treasure_id), ctx.program_id) {
            None => Some(ErrorCode::AddressDerivationExhausted),
            Some((address, _)) => if ctx.treasure_records@.contains_key(address) {
                Some(ErrorCode::DuplicateDeposit)
            } else {
                None
            },
        }
    }
}

/// The record of a treasure of `amount` that was just hidden.
pub open spec fn fresh_treasure(
    player: Pubkey,
    amount: u64,
    treasure_id: i64,
    bump: u8,
) -> TreasureRecord {
    TreasureRecord {
        player,
        amount,
        timestamp: treasure_id,
        claimed: false,
        tier: tier_of(amount),
        bump,
    }
}

/// What `hide_treasure` does. When entered it asks for the transfer of
/// `amount` from the player's token account to the vault's, signed by the
/// player. Once that was applied it creates the treasure's record at the
/// address derived from the player and the nonce, and adds `amount` to what
/// the vault counts as hidden.
pub open spec fn hide_treasure_spec(
    pre: HideTreasure,
    post: HideTreasure,
    amount: u64,
    treasure_id: i64,
    event: Event,
    step: Result<Option<Transfer>, ErrorCode>,
) -> bool {
    match hide_treasure_refusal(pre, amount, treasure_id) {
        Some(refusal) => step == Err::<Option<Transfer>, ErrorCode>(refusal) && post == pre,
        None => match event {
            Event::Entered => step == Ok::<Option<Transfer>, ErrorCode>(
                Some(
                    Transfer {
                        from: pre.player_token_account.key,
                        to: pre.vault_token_account,
                        authority: pre.player,
                        amount,
                    },
                ),
            ) && post == pre,
            Event::Failed(code) => step == Err::<Option<Transfer>, ErrorCode>(
                ErrorCode::InvocationFailed(code),
            ) && post == pre,
            Event::Applied => match credited(pre.vault.total_hidden, amount) {
                Err(overflow) => step == Err::<Option<Transfer>, ErrorCode>(overflow) && post
                    == pre,
                Ok(total) => {
                    let (address, bump) = derived_address(
                        record_seeds("treasure", pre.player, treasure_id),
                        pre.program_id,
                    ).unwrap();
                    &&& step == Ok::<Option<Transfer>, ErrorCode>(None)
                    &&& post.vault == TreasureVault { total_hidden: total, ..pre.vault }
                    &&& post.treasure_records@ == pre.treasure_records@.insert(
                        address,
                        fresh_treasure(pre.player, amount, treasure_id, bump),
                    )
                    &&& post.program_id == pre.program_id
                    &&& post.player == pre.player
                    &&& post.player_token_account == pre.player_token_account
                    &&& post.vault_token_account == pre.vault_token_account
                },
            },
        },
    }
}

/// Why `claim_treasure` is refused, if it is: the signer did not hide the
/// treasure, it was claimed before, or the vault's count is full.
pub open spec fn claim_treasure_refusal(ctx: ClaimTreasure) -> Option<ErrorCode> {
    if ctx.treasure_record.player != ctx.player {
        Some(ErrorCode::Unauthorized)
    } else if ctx.treasure_record.claimed {
        Some(ErrorCode::AlreadyClaimed)
    } else if ctx.vault.total_claimed == u64::MAX {
        Some(ErrorCode::ArithmeticOverflow)
    } else {
        None
    }
}

/// What `claim_treasure` does: it marks the treasure as claimed and counts the
/// claim in the vault.
pub open spec fn claim_treasure_spec(
    pre: ClaimTreasure,
    post: ClaimTreasure,
    done: Result<(), ErrorCode>,
) -> bool {
    match claim_treasure_refusal(pre) {
        Some(refusal) => done == Err::<(), ErrorCode>(refusal) && post == pre,
        None => done == Ok::<(), ErrorCode>(()) && post == (ClaimTreasure {
            treasure_record: TreasureRecord { claimed: true, ..pre.treasure_record },
            vault: TreasureVault {
                total_claimed: (pre.vault.total_claimed + 1) as u64,
                ..pre.vault
            },
            ..pre
        }),
    }
}

/// Why `search_treasure` is refused, if it is: the record's address cannot be
/// derived, or the player has searched under this nonce before.
pub open spec fn search_treasure_refusal(ctx: SearchTreasure, search_id: i64) -> Option<ErrorCode> {
    match derived_address(record_seeds("search", ctx.player, search_id), ctx.program_id) {
        None => Some(ErrorCode::AddressDerivationExhausted),
        Some((address, _)) => if ctx.search_records@.contains_key(address) {
            Some(ErrorCode::DuplicateSearch)
        } else {
            None
        },
    }
}

/// What `search_treasure` does: it records the search, with nothing found, at
/// the address derived from the player and the nonce.
pub open spec fn search_treasure_spec(
    pre: SearchTreasure,
    post: SearchTreasure,
    x: i32,
    y: i32,
    search_id: i64,
    done: Result<(), ErrorCode>,
) -> bool {
    match search_treasure_refusal(pre, search_id) {
        Some(refusal) => done == Err::<(), ErrorCode>(refusal) && post == pre,
        None => {
            let (address, bump) = derived_address(
                record_seeds("search", pre.player, search_id),
                pre.program_id,
            ).unwrap();
            &&& done == Ok::<(), ErrorCode>(())
            &&& post.search_records@ == pre.search_records@.insert(
                address,
                SearchRecord { player: pre.player, x, y, timestamp: search_id, found: false, bump },
            )
            &&& post.program_id == pre.program_id
            &&& post.player == pre.player
        },
    }
}

/// Why `whitelist_token` is refused, if it is: the signer is not the vault's
/// authority, or the entry's address cannot be derived.
pub open spec fn whitelist_token_refusal(ctx: WhitelistToken) -> Option<ErrorCode> {
    if ctx.vault.authority != ctx.authority {
        Some(ErrorCode::Unauthorized)
    } else if derived_address(keyed_seeds("whitelist", ctx.token_mint), ctx.program_id).is_none() {
        Some(ErrorCode::AddressDerivationExhausted)
    } else {
        None
    }
}

/// What `whitelist_token` does: it writes the enabled entry of `token_mint` at
/// the address derived from the mint's account, whether an entry lies there or not.
pub open spec fn whitelist_token_spec(
    pre: WhitelistToken,
    post: WhitelistToken,
    token_mint: Pubkey,
    done: Result<(), ErrorCode>,
) -> bool {
    match whitelist_token_refusal(pre) {
        Some(refusal) => done == Err::<(), ErrorCode>(refusal) && post == pre,
        None => {
            let (address, bump) = derived_address(
                keyed_seeds("whitelist", pre.token_mint),
                pre.program_id,
            ).unwrap();
            &&& done == Ok::<(), ErrorCode>(())
            &&& post.whitelist@ == pre.whitelist@.insert(
                address,
                TokenWhitelist { token_mint, enabled: true, bump },
            )
            &&& post.program_id == pre.program_id
            &&& post.token_mint == pre.token_mint
            &&& post.vault == pre.vault
            &&& post.authority == pre.authority
        },
    }
}

/// What `update_vault` does: the vault's authority, and nobody else, hands the
/// authority on where a new one is named, and changes nothing where none is.
pub open spec fn update_vault_spec(
    pre: UpdateVault,
    post: UpdateVault,
    new_authority: Option<Pubkey>,
    done: Result<(), ErrorCode>,
) -> bool {
    if pre.vault.authority != pre.authority {
        done == Err::<(), ErrorCode>(ErrorCode::Unauthorized) && post == pre
    } else {
        done == Ok::<(), ErrorCode>(()) && post == (match new_authority {
            Some(authority) => UpdateVault {
                vault: TreasureVault { authority, ..pre.vault },
                ..pre
            },
            None => pre,
        })
    }
}

/// Why `initialize_booty_mint` is refused, if it is: the state exists already,
/// or its address cannot be derived.
pub open spec fn initialize_booty_mint_refusal(ctx: InitializeBootyMint) -> Option<ErrorCode> {
    if ctx.booty_state.is_some() {
        Some(ErrorCode::AlreadyInitialized)
    } else if derived_address(tag_seeds("booty-state"), ctx.program_id).is_none() {
        Some(ErrorCode::AddressDerivationExhausted)
    } else {
        None
    }
}

/// What `initialize_booty_mint` does: it creates the state for the mint, under
/// the signer's authority, with nothing minted or burned and the cap as given.
pub open spec fn initialize_booty_mint_spec(
    pre: InitializeBootyMint,
    post: InitializeBootyMint,
    max_supply: Option<u64>,
    done: Result<(), ErrorCode>,
) -> bool {
    match initialize_booty_mint_refusal(pre) {
        Some(refusal) => done == Err::<(), ErrorCode>(refusal) && post == pre,
        None => done == Ok::<(), ErrorCode>(()) && post == (InitializeBootyMint {
            booty_state: Some(
                BootyState {
                    mint: pre.booty_mint,
                    authority: pre.authority,
                    total_mined: 0,
                    total_burned: 0,
                    max_supply,
                    bump: derived_address(tag_seeds("booty-state"), pre.program_id).unwrap().1,
                },
            ),
            ..pre
        }),
    }
}

/// Why `mine_booty` is refused before anything is invoked, if it is: the mint
/// is another than the state's, the state's address cannot be derived, or the
/// cap forbids the amount.
pub open spec fn mine_booty_refusal(ctx: MineBooty, amount: u64) -> Option<ErrorCode> {
    if ctx.booty_mint != ctx.booty_state.mint {
        Some(ErrorCode::InvalidMint)
    } else if derived_address(tag_seeds("booty-state"), ctx.program_id).is_none() {
        Some(ErrorCode::AddressDerivationExhausted)
    } else {
        mint_refusal(ctx.booty_state.total_mined, ctx.booty_state.max_supply, amount)
    }
}

/// What `mine_booty` does. When entered it asks for the minting of `amount`
/// into the player's token account, with the state's own address as the
/// authority. Once that was applied it adds `amount` to what was minted.
pub open spec fn mine_booty_spec(
    pre: MineBooty,
    post: MineBooty,
    amount: u64,
    event: Event,
    step: Result<Option<MintTo>, ErrorCode>,
) -> bool {
    match mine_booty_refusal(pre, amount) {
        Some(refusal) => step == Err::<Option<MintTo>, ErrorCode>(refusal) && post == pre,
        None => match event {
            Event::Entered => step == Ok::<Option<MintTo>, ErrorCode>(
                Some(
                    MintTo {
                        mint: pre.booty_mint,
                        to: pre.player_booty_account,
                        authority: derived_address(
                            tag_seeds("booty-state"),
                            pre.program_id,
                        ).unwrap().0,
                        amount,
                    },
                ),
            ) && post == pre,
            Event::Failed(code) => step == Err::<Option<MintTo>, ErrorCode>(
                ErrorCode::InvocationFailed(code),
            ) && post == pre,
            Event::Applied => match credited(pre.booty_state.total_mined, amount) {
                Ok(total) => step == Ok::<Option<MintTo>, ErrorCode>(None) && post == (MineBooty {
                    booty_state: BootyState { total_mined: total, ..pre.booty_state },
                    ..pre
                }),
                Err(overflow) => step == Err::<Option<MintTo>, ErrorCode>(overflow) && post == pre,
            },
        },
    }
}

/// Why `burn_booty_for_travel` is refused before anything is invoked, if it
/// is: the mint is another than the state's, or the token account is not the
/// player's.
pub open spec fn burn_booty_for_travel_refusal(ctx: BurnBootyForTravel) -> Option<ErrorCode> {
    if ctx.booty_mint != ctx.booty_state.mint {
        Some(ErrorCode::InvalidMint)
    } else if ctx.player_booty_account.owner != ctx.player {
        Some(ErrorCode::InvalidHoldingAccount)
    } else {
        None
    }
}

/// What `burn_booty_for_travel` does. When entered it asks for the burning of
/// `amount` out of the player's token account, signed by the player. Once that
/// was applied it adds `amount` to what was burned.
pub open spec fn burn_booty_for_travel_spec(
    pre: BurnBootyForTravel,
    post: BurnBootyForTravel,
    amount: u64,
    event: Event,
    step: Result<Option<Burn>, ErrorCode>,
) -> bool {
    match burn_booty_for_travel_refusal(pre) {
        Some(refusal) => step == Err::<Option<Burn>, ErrorCode>(refusal) && post == pre,
        None => match event {
            Event::Entered => step == Ok::<Option<Burn>, ErrorCode>(
                Some(
                    Burn {
                        mint: pre.booty_mint,
                        from: pre.player_booty_account.key,
                        authority: pre.player,
                        amount,
                    },
                ),
            ) && post == pre,
            Event::Failed(code) => step == Err::<Option<Burn>, ErrorCode>(
                ErrorCode::InvocationFailed(code),
            ) && post == pre,
            Event::Applied => match credited(pre.booty_state.total_burned, amount) {
                Ok(total) => step == Ok::<Option<Burn>, ErrorCode>(None) && post == (
                BurnBootyForTravel {
                    booty_state: BootyState { total_burned: total, ..pre.booty_state },
                    ..pre
                }),
                Err(overflow) => step == Err::<Option<Burn>, ErrorCode>(overflow) && post == pre,
            },
        },
    }
}

/// A treasure is claimed at most once: after a claim that went through, a
/// claim of the same treasure by the same player is refused as already
/// claimed and changes nothing, so that the two count as one claim.
pub proof fn lemma_claim_once(
    pre: ClaimTreasure,
    mid: ClaimTreasure,
    again: ClaimTreasure,
    post: ClaimTreasure,
    first: Result<(), ErrorCode>,
    second: Result<(), ErrorCode>,
)
    requires
        claim_treasure_spec(pre, mid, first),
        first.is_ok(),
        again.treasure_record == mid.treasure_record,
        again.player == mid.player,
        claim_treasure_spec(again, post, second),
    ensures
        mid.treasure_record.claimed,
        mid.vault.total_claimed == pre.vault.total_claimed + 1,
        second == Err::<(), ErrorCode>(ErrorCode::AlreadyClaimed),
        post == again,
{
}

/// A nonce serves a player once: after a treasure was hidden under it, the
/// same player cannot hide another under it, whatever the amount, and the
/// attempt changes nothing. An attempt that is in order but for the nonce is
/// refused as a duplicate.
pub proof fn lemma_same_nonce_refused(
    pre: HideTreasure,
    mid: HideTreasure,
    again: HideTreasure,
    post: HideTreasure,
    treasure_id: i64,
    first_amount: u64,
    second_amount: u64,
    event: Event,
    second: Result<Option<Transfer>, ErrorCode>,
)
    requires
        hide_treasure_spec(
            pre,
            mid,
            first_amount,
            treasure_id,
            Event::Applied,
            Ok::<Option<Transfer>, ErrorCode>(None),
        ),
        again.program_id == mid.program_id,
        again.player == mid.player,
        again.treasure_records@ == mid.treasure_records@,
        hide_treasure_spec(again, post, second_amount, treasure_id, event, second),
    ensures
        second.is_err(),
        post == again,
        second_amount >= MIN_TREASURE && again.player_token_account.owner == again.player
            ==> second == Err::<Option<Transfer>, ErrorCode>(ErrorCode::DuplicateDeposit),
{
}

/// Two nonces serve a player twice: where the two derive different addresses,
/// the second of which is free, and the vault's count has room, both treasures
/// are hidden, each is on record, and the vault counts the sum of both.
pub proof fn lemma_other_nonce_accepted(
    pre: HideTreasure,
    mid: HideTreasure,
    post: HideTreasure,
    first_id: i64,
    second_id: i64,
    first_amount: u64,
    second_amount: u64,
    second: Result<Option<Transfer>, ErrorCode>,
)
    requires
        first_id != second_id,
        hide_treasure_spec(
            pre,
            mid,
            first_amount,
            first_id,
            Event::Applied,
            Ok::<Option<Transfer>, ErrorCode>(None),
        ),
        hide_treasure_spec(mid, post, second_amount, second_id, Event::Applied, second),
        second_amount >= MIN_TREASURE,
        pre.vault.total_hidden + first_amount + second_amount <= u64::MAX,
        derived_address(record_seeds("treasure", pre.player, second_id), pre.program_id)
            matches Some((second_address, _)) && !pre.treasure_records@.contains_key(second_address)
            && second_address != derived_address(
            record_seeds("treasure", pre.player, first_id),
            pre.program_id,
        ).unwrap().0,
    ensures
        second == Ok::<Option<Transfer>, ErrorCode>(None),
        post.vault.total_hidden == pre.vault.total_hidden + first_amount + second_amount,
        ({
            let (first_address, first_bump) = derived_address(
                record_seeds("treasure", pre.player, first_id),
                pre.program_id,
            ).unwrap();
            let (second_address, second_bump) = derived_address(
                record_seeds("treasure", pre.player, second_id),
                pre.program_id,
            ).unwrap();
            &&& post.treasure_records@.contains_key(first_address)
            &&& post.treasure_records@[first_address] == fresh_treasure(
                pre.player,
                first_amount,
                first_id,
                first_bump,
            )
            &&& post.treasure_records@.contains_key(second_address)
            &&& post.treasure_records@[second_address] == fresh_treasure(
                pre.player,
                second_amount,
                second_id,
                second_bump,
            )
        }),
{
}

/// A treasure that was hidden is on record at the address derived from the
/// player and the nonce, unclaimed, with its amount and with the tier of that
/// amount, which lies between 1 and 4; and it is the only change to the records.
pub proof fn lemma_treasure_on_record(
    pre: HideTreasure,
    post: HideTreasure,
    amount: u64,
    treasure_id: i64,
)
    requires
        hide_treasure_spec(
            pre,
            post,
            amount,
            treasure_id,
            Event::Applied,
            Ok::<Option<Transfer>, ErrorCode>(None),
        ),
    ensures
        amount >= MIN_TREASURE,
        derived_address(record_seeds("treasure", pre.player, treasure_id), pre.program_id)
            matches Some((address, bump)) && !pre.treasure_records@.contains_key(address)
            && post.treasure_records@ == pre.treasure_records@.insert(
            address,
            TreasureRecord {
                player: pre.player,
                amount,
                timestamp: treasure_id,
                claimed: false,
                tier: tier_of(amount),
                bump,
            },
        ),
        1 <= tier_of(amount) <= 4,
        post.vault.total_hidden == pre.vault.total_hidden + amount,
{
    lemma_tier_monotone(amount, amount);
}

/// No instruction lowers what the vault counts: a treasure adds its amount, a
/// claim adds one, and a step that is refused or only asks adds nothing.
pub proof fn lemma_vault_counts_never_fall(
    hide: (HideTreasure, HideTreasure),
    amount: u64,
    treasure_id: i64,
    event: Event,
    step: Result<Option<Transfer>, ErrorCode>,
    claim: (ClaimTreasure, ClaimTreasure),
    done: Result<(), ErrorCode>,
)
    requires
        hide_treasure_spec(hide.0, hide.1, amount, treasure_id, event, step),
        claim_treasure_spec(claim.0, claim.1, done),
    ensures
        hide.1.vault.total_hidden == hide.0.vault.total_hidden + (if step == Ok::<
            Option<Transfer>,
            ErrorCode,
        >(None) {
            amount
        } else {
            0
        }),
        hide.1.vault.total_claimed == hide.0.vault.total_claimed,
        claim.1.vault.total_claimed == claim.0.vault.total_claimed + (if done.is_ok() {
            1int
        } else {
            0
        }),
        claim.1.vault.total_hidden == claim.0.vault.total_hidden,
{
}

/// No step of `mine_booty` or `burn_booty_for_travel` lowers a counter of the
/// supply: a mint that was applied adds its amount to what was minted, a burn
/// that was applied adds its amount to what was burned, and nothing else moves.
pub proof fn lemma_supply_counts_never_fall(
    mine: (MineBooty, MineBooty),
    mined: u64,
    mine_event: Event,
    mine_step: Result<Option<MintTo>, ErrorCode>,
    burn: (BurnBootyForTravel, BurnBootyForTravel),
    burned: u64,
    burn_event: Event,
    burn_step: Result<Option<Burn>, ErrorCode>,
)
    requires
        mine_booty_spec(mine.0, mine.1, mined, mine_event, mine_step),
        burn_booty_for_travel_spec(burn.0, burn.1, burned, burn_event, burn_step),
    ensures
        mine.1.booty_state.total_mined == mine.0.booty_state.total_mined + (if mine_step == Ok::<
            Option<MintTo>,
            ErrorCode,
        >(None) {
            mined
        } else {
            0
        }),
        mine.1.booty_state.total_burned == mine.0.booty_state.total_burned,
        burn.1.booty_state.total_burned == burn.0.booty_state.total_burned + (if burn_step == Ok::<
            Option<Burn>,
            ErrorCode,
        >(None) {
            burned
        } else {
            0
        }),
        burn.1.booty_state.total_mined == burn.0.booty_state.total_mined,
{
}

/// A supply state that was just set up has nothing minted and nothing burned,
/// and so is within its cap, whatever the cap.
pub proof fn lemma_fresh_supply_within_cap(
    pre: InitializeBootyMint,
    post: InitializeBootyMint,
    max_supply: Option<u64>,
    done: Result<(), ErrorCode>,
)
    requires
        initialize_booty_mint_spec(pre, post, max_supply, done),
        done.is_ok(),
    ensures
        pre.booty_state.is_none(),
        post.booty_state matches Some(state) && state.total_mined == 0 && state.total_burned == 0
            && state.max_supply == max_supply && state.within_cap(),
{
}

/// A step of `mine_booty` keeps what was minted within the cap and leaves the
/// cap alone; and an amount that would carry the total over the cap, while it
/// fits in a `u64`, is refused as exceeding the supply and changes nothing.
pub proof fn lemma_mine_booty_within_cap(
    pre: MineBooty,
    post: MineBooty,
    amount: u64,
    event: Event,
    step: Result<Option<MintTo>, ErrorCode>,
)
    requires
        mine_booty_spec(pre, post, amount, event, step),
    ensures
        post.booty_state.max_supply == pre.booty_state.max_supply,
        pre.booty_state.within_cap() ==> post.booty_state.within_cap(),
        pre.booty_state.max_supply matches Some(cap) && pre.booty_state.total_mined + amount > cap
            ==> post == pre && step.is_err(),
        pre.booty_state.max_supply matches Some(cap) && cap < pre.booty_state.total_mined + amount
            <= u64::MAX && pre.booty_mint == pre.booty_state.mint && derived_address(
            tag_seeds("booty-state"),
            pre.program_id,
        ).is_some() ==> step == Err::<Option<MintTo>, ErrorCode>(ErrorCode::MaxSupplyExceeded),
{
}

/// However many steps of `mine_booty` follow one another, what was minted
/// stays within the cap that it was within at first, and the cap stays.
pub proof fn lemma_mines_within_cap(
    states: Seq<MineBooty>,
    amounts: Seq<u64>,
    events: Seq<Event>,
    steps: Seq<Result<Option<MintTo>, ErrorCode>>,
    upto: int,
)
    requires
        states.len() == amounts.len() + 1,
        events.len() == amounts.len(),
        steps.len() == amounts.len(),
        states[0].booty_state.within_cap(),
        forall|i: int|
            0 <= i < amounts.len() ==> mine_booty_spec(
                states[i],
                states[i + 1],
                amounts[i],
                events[i],
                #[trigger] steps[i],
            ),
        0 <= upto < states.len(),
    ensures
        states[upto].booty_state.within_cap(),
        states[upto].booty_state.max_supply == states[0].booty_state.max_supply,
    decreases upto,
{
    if upto > 0 {
        lemma_mines_within_cap(states, amounts, events, steps, upto - 1);
        let i = upto - 1;
        assert(mine_booty_spec(states[i], states[i + 1], amounts[i], events[i], steps[i]));
        lemma_mine_booty_within_cap(states[i], states[i + 1], amounts[i], events[i], steps[i]);
    }
}

impl MineBooty {
    /// The seeds with which the program signs the minting for its supply state.
    pub fn signer_seeds(&self) -> (seeds: Vec<Vec<u8>>)
        ensures
            seeds.deep_view() == signer_seeds("booty-state", self.booty_state.bump),
    {
        seeds_of_signer("booty-state", self.booty_state.bump)
    }
}

/// Mints a collectible to a player: one token of the fresh mint into the
/// player's token account, then the token's metadata.
pub fn mint_nft(
    ctx: &MintNFT,
    metadata_title: String,
    metadata_symbol: String,
    metadata_uri: String,
    event: IssueEvent,
) -> (step: Result<IssueStep, ErrorCode>)
    ensures
        step == mint_nft_spec(*ctx, metadata_title, metadata_symbol, metadata_uri, event),
{
    issue(
        ctx.payer,
        ctx.mint,
        ctx.token_account,
        ctx.metadata,
        metadata_title,
        metadata_symbol,
        metadata_uri,
        event,
    )
}

/// Sets up the treasure vault, once.
pub fn initialize_vault(ctx: &mut InitializeVault) -> (done: Result<(), ErrorCode>)
    ensures
        initialize_vault_spec(*old(ctx), *final(ctx), done),
{
    if ctx.vault.is_some() {
        return Err(ErrorCode::AlreadyInitialized);
    }
    let seeds = seeds_of_tag("vault");
    match Pubkey::find_program_address(&seeds, &ctx.program_id) {
        Ok((_, bump)) => {
            ctx.vault = Some(
                TreasureVault { authority: ctx.authority, total_hidden: 0, total_claimed: 0, bump },
            );
            Ok(())
        },
        Err(refusal) => Err(refusal),
    }
}

/// Hides a treasure: moves `amount` of the player's tokens into the vault and
/// records the treasure under the nonce `treasure_id`.
pub fn hide_treasure(
    ctx: &mut HideTreasure,
    amount: u64,
    treasure_id: i64,
    event: Event,
) -> (step: Result<Option<Transfer>, ErrorCode>)
    ensures
        hide_treasure_spec(*old(ctx), *final(ctx), amount, treasure_id, event, step),
{
    if ctx.player_token_account.owner != ctx.player {
        return Err(ErrorCode::InvalidHoldingAccount);
    }
    if amount < MIN_TREASURE {
        return Err(ErrorCode::InsufficientDeposit);
    }
    let seeds = seeds_of_record("treasure", &ctx.player, treasure_id);
    let (address, bump) = match Pubkey::find_program_address(&seeds, &ctx.program_id) {
        Ok(derived) => derived,
        Err(refusal) => {
            return Err(refusal);
        },
    };
    if ctx.treasure_records.contains_key(&address) {
        return Err(ErrorCode::DuplicateDeposit);
    }
    match event {
        Event::Entered => Ok(
            Some(
                Transfer {
                    from: ctx.player_token_account.key,
                    to: ctx.vault_token_account,
                    authority: ctx.player,
                    amount,
                },
            ),
        ),
        Event::Failed(code) => Err(ErrorCode::InvocationFailed(code)),
        Event::Applied => match credit(ctx.vault.total_hidden, amount) {
            Ok(total) => {
                let record = TreasureRecord {
                    player: ctx.player,
                    amount,
                    timestamp: treasure_id,
                    claimed: false,
                    tier: calculate_tier(amount),
                    bump,
                };
                ctx.treasure_records.create(address, record);
                ctx.vault.total_hidden = total;
                Ok(None)
            },
            Err(overflow) => Err(overflow),
        },
    }
}

/// Claims a hidden treasure, once.
pub fn claim_treasure(ctx: &mut ClaimTreasure) -> (done: Result<(), ErrorCode>)
    ensures
        claim_treasure_spec(*old(ctx), *final(ctx), done),
{
    if ctx.treasure_record.player != ctx.player {
        return Err(ErrorCode::Unauthorized);
    }
    if ctx.treasure_record.claimed {
        return Err(ErrorCode::AlreadyClaimed);
    }
    match ctx.vault.total_claimed.checked_add(1) {
        Some(total) => {
            ctx.treasure_record.claimed = true;
            ctx.vault.total_claimed = total;
            Ok(())
        },
        None => Err(ErrorCode::ArithmeticOverflow),
    }
}

/// Records a search at the place `(x, y)` under the nonce `search_id`.
pub fn search_treasure(ctx: &mut SearchTreasure, x: i32, y: i32, search_id: i64) -> (done: Result<
    (),
    ErrorCode,
>)
    ensures
        search_treasure_spec(*old(ctx), *final(ctx), x, y, search_id, done),
{
    let seeds = seeds_of_record("search", &ctx.player, search_id);
    let (address, bump) = match Pubkey::find_program_address(&seeds, &ctx.program_id) {
        Ok(derived) => derived,
        Err(refusal) => {
            return Err(refusal);
        },
    };
    let record = SearchRecord {
        player: ctx.player,
        x,
        y,
        timestamp: search_id,
        found: false,
        bump,
    };
    if ctx.search_records.create(address, record) {
        Ok(())
    } else {
        Err(ErrorCode::DuplicateSearch)
    }
}

/// Approves `token_mint` as a token that can be hidden.
pub fn whitelist_token(
    ctx: &mut WhitelistToken,
    token_mint: Pubkey,
) -> (done: Result<(), ErrorCode>)
    ensures
        whitelist_token_spec(*old(ctx), *final(ctx), token_mint, done),
{
    if ctx.vault.authority != ctx.authority {
        return Err(ErrorCode::Unauthorized);
    }
    let seeds = seeds_of_key("whitelist", &ctx.token_mint);
    match Pubkey::find_program_address(&seeds, &ctx.program_id) {
        Ok((address, bump)) => {
            ctx.whitelist.put(address, TokenWhitelist { token_mint, enabled: true, bump });
            Ok(())
        },
        Err(refusal) => Err(refusal),
    }
}

/// Hands the authority over the vault on, where a new one is named.
pub fn update_vault(ctx: &mut UpdateVault, new_authority: Option<Pubkey>) -> (done: Result<
    (),
    ErrorCode,
>)
    ensures
        update_vault_spec(*old(ctx), *final(ctx), new_authority, done),
{
    if ctx.vault.authority != ctx.authority {
        return Err(ErrorCode::Unauthorized);
    }
    match new_authority {
        Some(authority) => {
            ctx.vault.authority = authority;
        },
        None => {},
    }
    Ok(())
}

/// Sets up the supply state of the game's token: nothing minted, nothing
/// burned, the cap as given. `decimals` is the scale that the mint was created
/// with; the state does not keep it.
pub fn initialize_booty_mint(
    ctx: &mut InitializeBootyMint,
    decimals: u8,
    max_supply: Option<u64>,
) -> (done: Result<(), ErrorCode>)
    ensures
        initialize_booty_mint_spec(*old(ctx), *final(ctx), max_supply, done),
{
    if ctx.booty_state.is_some() {
        return Err(ErrorCode::AlreadyInitialized);
    }
    let seeds = seeds_of_tag("booty-state");
    match Pubkey::find_program_address(&seeds, &ctx.program_id) {
        Ok((_, bump)) => {
            ctx.booty_state = Some(
                BootyState {
                    mint: ctx.booty_mint,
                    authority: ctx.authority,
                    total_mined: 0,
                    total_burned: 0,
                    max_supply,
                    bump,
                },
            );
            Ok(())
        },
        Err(refusal) => Err(refusal),
    }
}

/// Mines tokens for a player: mints `amount` into the player's token account
/// and counts it as minted.
pub fn mine_booty(ctx: &mut MineBooty, amount: u64, event: Event) -> (step: Result<
    Option<MintTo>,
    ErrorCode,
>)
    ensures
        mine_booty_spec(*old(ctx), *final(ctx), amount, event, step),
{
    if ctx.booty_mint != ctx.booty_state.mint {
        return Err(ErrorCode::InvalidMint);
    }
    let seeds = seeds_of_tag("booty-state");
    let authority = match Pubkey::find_program_address(&seeds, &ctx.program_id) {
        Ok((address, _)) => address,
        Err(refusal) => {
            return Err(refusal);
        },
    };
    match check_mint(ctx.booty_state.total_mined, ctx.booty_state.max_supply, amount) {
        Ok(()) => {},
        Err(refusal) => {
            return Err(refusal);
        },
    }
    match event {
        Event::Entered => Ok(
            Some(MintTo { mint: ctx.booty_mint, to: ctx.player_booty_account, authority, amount }),
        ),
        Event::Failed(code) => Err(ErrorCode::InvocationFailed(code)),
        Event::Applied => match credit(ctx.booty_state.total_mined, amount) {
            Ok(total) => {
                ctx.booty_state.total_mined = total;
                Ok(None)
            },
            Err(overflow) => Err(overflow),
        },
    }
}

/// Burns tokens of a player as the cost of a journey: burns `amount` out of
/// the player's token account and counts it as burned.
pub fn burn_booty_for_travel(
    ctx: &mut BurnBootyForTravel,
    amount: u64,
    event: Event,
) -> (step: Result<Option<Burn>, ErrorCode>)
    ensures
        burn_booty_for_travel_spec(*old(ctx), *final(ctx), amount, event, step),
{
    if ctx.booty_mint != ctx.booty_state.mint {
        return Err(ErrorCode::InvalidMint);
    }
    if ctx.player_booty_account.owner != ctx.player {
        return Err(ErrorCode::InvalidHoldingAccount);
    }
    match event {
        Event::Entered => Ok(
            Some(
                Burn {
                    mint: ctx.booty_mint,
                    from: ctx.player_booty_account.key,
                    authority: ctx.player,
                    amount,
                },
            ),
        ),
        Event::Failed(code) => Err(ErrorCode::InvocationFailed(code)),
        Event::Applied => match credit(ctx.booty_state.total_burned, amount) {
            Ok(total) => {
                ctx.booty_state.total_burned = total;
                Ok(None)
            },
            Err(overflow) => Err(overflow),
        },
    }
}

} // verus!
