//! The deposit program: players deposit tokens into the vault, and each
//! deposit earns one monster of the deposit's tier, which is claimed once.

use vstd::prelude::*;
pub use crate::error::ErrorCode;
use crate::cpi::{Event, TokenAccount, Transfer};
use crate::game::{calculate_tier, lemma_tier_monotone, tier_of};
use crate::ledger::Ledger;
use crate::pubkey::{
    derived_address,
    keyed_seeds,
    record_seeds,
    seeds_of_key,
    seeds_of_record,
    seeds_of_tag,
    tag_seeds,
    Pubkey,
};
use crate::supply::{credit, credited};

verus! {

/// The least that can be deposited: 100 whole tokens of a token with six decimals.
pub const MIN_DEPOSIT: u64 = 100_000_000;

/// The vault: who governs it, and what passed through it.
#[derive(Clone, Copy, Debug, PartialEq, Eq)]
pub struct TreasureVault {
    /// Who may whitelist tokens and hand the authority on.
    pub authority: Pubkey,
    /// All that was ever deposited.
    pub total_deposits: u64,
    /// The number of monsters claimed.
    pub total_monsters_minted: u64,
    /// The bump seed of the vault's own address.
    pub bump: u8,
}

impl TreasureVault {
    /// The bytes that the stored vault takes.
    pub const LEN: usize = 8 + 32 + 8 + 8 + 1;
}

/// A deposit that a player has made.
#[derive(Clone, Copy, Debug, PartialEq, Eq)]
pub struct DepositRecord {
    /// Who deposited.
    pub player: Pubkey,
    /// How much was deposited.
    pub amount: u64,
    /// The time of the deposit, which is also its nonce.
    pub timestamp: i64,
    /// Whether the monster was claimed.
    pub claimed: bool,
    /// Its tier, 1 to 4, which tells the monster that it earns.
    pub tier: u8,
    /// The bump seed of the record's own address.
    pub bump: u8,
}

impl DepositRecord {
    /// The bytes that the stored record takes.
    pub const LEN: usize = 8 + 32 + 8 + 8 + 1 + 1 + 1;
}

/// The approval of a token as one that can be deposited.
#[derive(Clone, Copy, Debug, PartialEq, Eq)]
pub struct TokenWhitelist {
    /// The approved token mint.
    pub token_mint: Pubkey,
    pub enabled: bool,
    /// The bump seed of the entry's own address.
    pub bump: u8,
}

impl TokenWhitelist {
    /// The bytes that the stored entry takes.
    pub const LEN: usize = 8 + 32 + 1 + 1;
}

/// The accounts of `initialize`.
#[derive(Clone, Copy, Debug, PartialEq, Eq)]
pub struct Initialize {
    /// The program, under which the vault's address is derived.
    pub program_id: Pubkey,
    /// What lies at the vault's address: nothing before the set-up.
    pub vault: Option<TreasureVault>,
    /// The signer that sets the vault up.
    pub authority: Pubkey,
}

/// The accounts of `deposit_for_monster`.
#[derive(Clone, Debug, PartialEq, Eq)]
pub struct DepositForMonster {
    /// The program, under which the record's address is derived.
    pub program_id: Pubkey,
    /// The signer that deposits.
    pub player: Pubkey,
    /// The token account that the deposit comes from.
    pub player_token_account: TokenAccount,
    /// The vault's token account, which takes the deposit.
    pub vault_token_account: Pubkey,
    pub vault: TreasureVault,
    /// The deposits made so far, each at its derived address.
    pub deposit_records: Ledger<DepositRecord>,
}

/// The accounts of `claim_monster`.
#[derive(Clone, Copy, Debug, PartialEq, Eq)]
pub struct ClaimMonster {
    /// The signer that claims.
    pub player: Pubkey,
    /// The deposit whose monster is claimed.
    pub deposit_record: DepositRecord,
    pub vault: TreasureVault,
}

/// The accounts of `whitelist_token`.
#[derive(Clone, Debug, PartialEq, Eq)]
pub struct WhitelistToken {
    /// The program, under which the entry's address is derived.
    pub program_id: Pubkey,
    /// The whitelist entries made so far, each at its derived address.
    pub whitelist: Ledger<TokenWhitelist>,
    /// The token mint whose entry is written.
    pub token_mint: Pubkey,
    pub vault: TreasureVault,
    /// The signer.
    pub authority: Pubkey,
}

/// The accounts of `update_vault`.
#[derive(Clone, Copy, Debug, PartialEq, Eq)]
pub struct UpdateVault {
    pub vault: TreasureVault,
    /// The signer.
    pub authority: Pubkey,
}

/// Why `initialize` is refused, if it is: the vault exists already, or its
/// address cannot be derived.
pub open spec fn initialize_refusal(ctx: Initialize) -> Option<ErrorCode> {
    if ctx.vault.is_some() {
        Some(ErrorCode::AlreadyInitialized)
    } else if derived_address(tag_seeds("vault"), ctx.program_id).is_none() {
        Some(ErrorCode::AddressDerivationExhausted)
    } else {
        None
    }
}

/// What `initialize` does: it creates the vault under the signer's authority,
/// with nothing deposited and nothing claimed.
pub open spec fn initialize_spec(
    pre: Initialize,
    post: Initialize,
    done: Result<(),
    ErrorCode>,
) -> bool {
    match initialize_refusal(pre) {
        Some(refusal) => done == Err::<(), ErrorCode>(refusal) && post == pre,
        None => done == Ok::<(), ErrorCode>(()) && post == (Initialize {
            vault: Some(
                TreasureVault {
                    authority: pre.authority,
                    total_deposits: 0,
                    total_monsters_minted: 0,
                    bump: derived_address(tag_seeds("vault"), pre.program_id).unwrap().1,
                },
            ),
            ..pre
        }),
    }
}

/// Why `deposit_for_monster` is refused before anything is invoked, if it is:
/// the token account is not the player's, the amount is below the minimum, the
/// record's address cannot be derived, or the player has deposited at this
/// time before.
pub open spec fn deposit_for_monster_refusal(
    ctx: DepositForMonster,
    amount: u64,
    timestamp: i64,
) -> Option<
    ErrorCode,
> {
    if ctx.player_token_account.owner != ctx.player {
        Some(ErrorCode::InvalidHoldingAccount)
    } else if amount < MIN_DEPOSIT {
        Some(ErrorCode::InsufficientDeposit)
    } else {
        match derived_address(record_seeds("deposit", ctx.player, timestamp), ctx.program_id) {
            None => Some(ErrorCode::AddressDerivationExhausted),
            Some((address, _)) => if ctx.deposit_records@.contains_key(address) {
                Some(ErrorCode::DuplicateDeposit)
            } else {
                None
            },
        }
    }
}

/// The record of a deposit of `amount` that was just made.
pub open spec fn fresh_deposit(
    player: Pubkey,
    amount: u64,
    timestamp: i64,
    bump: u8,
) -> DepositRecord {
    DepositRecord {
        player,
        amount,
        timestamp,
        claimed: false,
        tier: tier_of(amount),
        bump,
    }
}

/// What `deposit_for_monster` does. When entered it asks for the transfer of
/// `amount` from the player's token account to the vault's, signed by the
/// player. Once that was applied it creates the deposit's record at the
/// address derived from the player and the time, and adds `amount` to what the
/// vault counts as deposited.
pub open spec fn deposit_for_monster_spec(
    pre: DepositForMonster,
    post: DepositForMonster,
    amount: u64,
    timestamp: i64,
    event: Event,
    step: Result<Option<Transfer>, ErrorCode>,
) -> bool {
    match deposit_for_monster_refusal(pre, amount, timestamp) {
        Some(refusal) => step == Err::<Option<Transfer>, ErrorCode>(refusal) && post == pre,
        None => match event {
            Event::Entered => step == Ok::<Option<Transfer>, ErrorCode>(
                Some(
                    Transfer {
                        from: pre.player_token_account.key,
                        to: pre.vault_token_account,
                        authority: pre.player,
                        amount,
                    },
                ),
            ) && post == pre,
            Event::Failed(code) => step == Err::<Option<Transfer>, ErrorCode>(
                ErrorCode::InvocationFailed(code),
            ) && post == pre,
            Event::Applied => match credited(pre.vault.total_deposits, amount) {
                Err(overflow) => step == Err::<Option<Transfer>, ErrorCode>(overflow) && post
                    == pre,
                Ok(total) => {
                    let (address, bump) = derived_address(
                        record_seeds("deposit", pre.player, timestamp),
                        pre.program_id,
                    ).unwrap();
                    &&& step == Ok::<Option<Transfer>, ErrorCode>(None)
                    &&& post.vault == TreasureVault { total_deposits: total, ..pre.vault }
                    &&& post.deposit_records@ == pre.deposit_records@.insert(
                        address,
                        fresh_deposit(pre.player, amount, timestamp, bump),
                    )
                    &&& post.program_id == pre.program_id
                    &&& post.player == pre.player
                    &&& post.player_token_account == pre.player_token_account
                    &&& post.vault_token_account == pre.vault_token_account
                },
            },
        },
    }
}

/// Why `claim_monster` is refused, if it is: the signer did not make the
/// deposit, its monster was claimed before, or the vault's count is full.
pub open spec fn claim_monster_refusal(ctx: ClaimMonster) -> Option<ErrorCode> {
    if ctx.deposit_record.player != ctx.player {
        Some(ErrorCode::Unauthorized)
    } else if ctx.deposit_record.claimed {
        Some(ErrorCode::AlreadyClaimed)
    } else if ctx.vault.total_monsters_minted == u64::MAX {
        Some(ErrorCode::ArithmeticOverflow)
    } else {
        None
    }
}

/// What `claim_monster` does: it marks the deposit as claimed and counts the
/// monster in the vault.
pub open spec fn claim_monster_spec(
    pre: ClaimMonster,
    post: ClaimMonster,
    done: Result<(),
    ErrorCode>,
) -> bool {
    match claim_monster_refusal(pre) {
        Some(refusal) => done == Err::<(), ErrorCode>(refusal) && post == pre,
        None => done == Ok::<(), ErrorCode>(()) && post == (ClaimMonster {
            deposit_record: DepositRecord { claimed: true, ..pre.deposit_record },
            vault: TreasureVault {
                total_monsters_minted: (pre.vault.total_monsters_minted + 1) as u64,
                ..pre.vault
            },
            ..pre
        }),
    }
}

/// Why `whitelist_token` is refused, if it is: the signer is not the vault's
/// authority, or the entry's address cannot be derived.
pub open spec fn whitelist_token_refusal(ctx: WhitelistToken) -> Option<ErrorCode> {
    if ctx.vault.authority != ctx.authority {
        Some(ErrorCode::Unauthorized)
    } else if derived_address(keyed_seeds("whitelist", ctx.token_mint), ctx.program_id).is_none() {
        Some(ErrorCode::AddressDerivationExhausted)
    } else {
        None
    }
}

/// What `whitelist_token` does: it writes the enabled entry of `token_mint` at
/// the address derived from the mint's account, whether an entry lies there or not.
pub open spec fn whitelist_token_spec(
    pre: WhitelistToken,
    post: WhitelistToken,
    token_mint: Pubkey,
    done: Result<(), ErrorCode>,
) -> bool {
    match whitelist_token_refusal(pre) {
        Some(refusal) => done == Err::<(), ErrorCode>(refusal) && post == pre,
        None => {
            let (address, bump) = derived_address(
                keyed_seeds("whitelist", pre.token_mint),
                pre.program_id,
            ).unwrap();
            &&& done == Ok::<(), ErrorCode>(())
            &&& post.whitelist@ == pre.whitelist@.insert(
                address,
                TokenWhitelist { token_mint, enabled: true, bump },
            )
            &&& post.program_id == pre.program_id
            &&& post.token_mint == pre.token_mint
            &&& post.vault == pre.vault
            &&& post.authority == pre.authority
        },
    }
}

/// What `update_vault` does: the vault's authority, and nobody else, hands the
/// authority on where a new one is named, and changes nothing where none is.
pub open spec fn update_vault_spec(
    pre: UpdateVault,
    post: UpdateVault,
    new_authority: Option<Pubkey>,
    done: Result<(), ErrorCode>,
) -> bool {
    if pre.vault.authority != pre.authority {
        done == Err::<(), ErrorCode>(ErrorCode::Unauthorized) && post == pre
    } else {
        done == Ok::<(), ErrorCode>(()) && post == (match new_authority {
            Some(authority) => UpdateVault {
                vault: TreasureVault { authority, ..pre.vault },
                ..pre
            },
            None => pre,
        })
    }
}

/// A monster is claimed at most once: after a claim that went through, a claim
/// for the same deposit by the same player is refused as already claimed and
/// changes nothing, so that the two count as one monster.
pub proof fn lemma_claim_once(
    pre: ClaimMonster,
    mid: ClaimMonster,
    again: ClaimMonster,
    post: ClaimMonster,
    first: Result<(), ErrorCode>,
    second: Result<(), ErrorCode>,
)
    requires
        claim_monster_spec(pre, mid, first),
        first.is_ok(),
        again.deposit_record == mid.deposit_record,
        again.player == mid.player,
        claim_monster_spec(again, post, second),
    ensures
        mid.deposit_record.claimed,
        mid.vault.total_monsters_minted == pre.vault.total_monsters_minted + 1,
        second == Err::<(), ErrorCode>(ErrorCode::AlreadyClaimed),
        post == again,
{
}

/// A time serves a player once: after a deposit was made at it, the same
/// player cannot make another at it, whatever the amount, and the attempt
/// changes nothing. An attempt that is in order but for the time is refused as
/// a duplicate.
pub proof fn lemma_same_time_refused(
    pre: DepositForMonster,
    mid: DepositForMonster,
    again: DepositForMonster,
    post: DepositForMonster,
    timestamp: i64,
    first_amount: u64,
    second_amount: u64,
    event: Event,
    second: Result<Option<Transfer>, ErrorCode>,
)
    requires
        deposit_for_monster_spec(
            pre,
            mid,
            first_amount,
            timestamp,
            Event::Applied,
            Ok::<Option<Transfer>, ErrorCode>(None),
        ),
        again.program_id == mid.program_id,
        again.player == mid.player,
        again.deposit_records@ == mid.deposit_records@,
        deposit_for_monster_spec(again, post, second_amount, timestamp, event, second),
    ensures
        second.is_err(),
        post == again,
        second_amount >= MIN_DEPOSIT && again.player_token_account.owner == again.player
            ==> second == Err::<Option<Transfer>, ErrorCode>(ErrorCode::DuplicateDeposit),
{
}

/// Two times serve a player twice: where the two derive different addresses,
/// the second of which is free, and the vault's count has room, both deposits
/// are made, each is on record, and the vault counts the sum of both.
pub proof fn lemma_other_time_accepted(
    pre: DepositForMonster,
    mid: DepositForMonster,
    post: DepositForMonster,
    first_time: i64,
    second_time: i64,
    first_amount: u64,
    second_amount: u64,
    second: Result<Option<Transfer>, ErrorCode>,
)
    requires
        first_time != second_time,
        deposit_for_monster_spec(
            pre,
            mid,
            first_amount,
            first_time,
            Event::Applied,
            Ok::<Option<Transfer>, ErrorCode>(None),
        ),
        deposit_for_monster_spec(mid, post, second_amount, second_time, Event::Applied, second),
        second_amount >= MIN_DEPOSIT,
        pre.vault.total_deposits + first_amount + second_amount <= u64::MAX,
        derived_address(record_seeds("deposit", pre.player, second_time), pre.program_id)
            matches Some((second_address, _)) && !pre.deposit_records@.contains_key(second_address)
            && second_address != derived_address(
            record_seeds("deposit", pre.player, first_time),
            pre.program_id,
        ).unwrap().0,
    ensures
        second == Ok::<Option<Transfer>, ErrorCode>(None),
        post.vault.total_deposits == pre.vault.total_deposits + first_amount + second_amount,
        ({
            let (first_address, first_bump) = derived_address(
                record_seeds("deposit", pre.player, first_time),
                pre.program_id,
            ).unwrap();
            let (second_address, second_bump) = derived_address(
                record_seeds("deposit", pre.player, second_time),
                pre.program_id,
            ).unwrap();
            &&& post.deposit_records@.contains_key(first_address)
            &&& post.deposit_records@[first_address] == fresh_deposit(
                pre.player,
                first_amount,
                first_time,
                first_bump,
            )
            &&& post.deposit_records@.contains_key(second_address)
            &&& post.deposit_records@[second_address] == fresh_deposit(
                pre.player,
                second_amount,
                second_time,
                second_bump,
            )
        }),
{
}

/// A deposit that went through is on record at the address derived from the
/// player and the time, unclaimed, with its amount and with the tier of that
/// amount, which lies between 1 and 4; and it is the only change to the records.
pub proof fn lemma_deposit_on_record(
    pre: DepositForMonster,
    post: DepositForMonster,
    amount: u64,
    timestamp: i64,
)
    requires
        deposit_for_monster_spec(
            pre,
            post,
            amount,
            timestamp,
            Event::Applied,
            Ok::<Option<Transfer>, ErrorCode>(None),
        ),
    ensures
        amount >= MIN_DEPOSIT,
        derived_address(record_seeds("deposit", pre.player, timestamp), pre.program_id)
            matches Some((address, bump)) && !pre.deposit_records@.contains_key(address)
            && post.deposit_records@ == pre.deposit_records@.insert(
            address,
            DepositRecord {
                player: pre.player,
                amount,
                timestamp,
                claimed: false,
                tier: tier_of(amount),
                bump,
            },
        ),
        1 <= tier_of(amount) <= 4,
        post.vault.total_deposits == pre.vault.total_deposits + amount,
{
    lemma_tier_monotone(amount, amount);
}

/// No instruction lowers what the vault counts: a deposit adds its amount, a
/// claim adds one, and a step that is refused or only asks adds nothing.
pub proof fn lemma_vault_counts_never_fall(
    deposit: (DepositForMonster, DepositForMonster),
    amount: u64,
    timestamp: i64,
    event: Event,
    step: Result<Option<Transfer>, ErrorCode>,
    claim: (ClaimMonster, ClaimMonster),
    done: Result<(), ErrorCode>,
)
    requires
        deposit_for_monster_spec(deposit.0, deposit.1, amount, timestamp, event, step),
        claim_monster_spec(claim.0, claim.1, done),
    ensures
        deposit.1.vault.total_deposits == deposit.0.vault.total_deposits + (if step
            == Ok::<Option<Transfer>, ErrorCode>(None) {
            amount
        } else {
            0
        }),
        deposit.1.vault.total_monsters_minted == deposit.0.vault.total_monsters_minted,
        claim.1.vault.total_monsters_minted == claim.0.vault.total_monsters_minted + (
        if done.is_ok() {
            1int
        } else {
            0
        }),
        claim.1.vault.total_deposits == claim.0.vault.total_deposits,
{
}

/// Sets up the vault, once.
pub fn initialize(ctx: &mut Initialize) -> (done: Result<(), ErrorCode>)
    ensures
        initialize_spec(*old(ctx), *final(ctx), done),
{
    if ctx.vault.is_some() {
        return Err(ErrorCode::AlreadyInitialized);
    }
    let seeds = seeds_of_tag("vault");
    match Pubkey::find_program_address(&seeds, &ctx.program_id) {
        Ok((_, bump)) => {
            ctx.vault = Some(
                TreasureVault {
                    authority: ctx.authority,
                    total_deposits: 0,
                    total_monsters_minted: 0,
                    bump,
                },
            );
            Ok(())
        },
        Err(refusal) => Err(refusal),
    }
}

/// Deposits for a monster: moves `amount` of the player's tokens into the vault
/// and records the deposit under the time `timestamp`, which the host reads
/// from its clock.
pub fn deposit_for_monster(
    ctx: &mut DepositForMonster,
    amount: u64,
    timestamp: i64,
    event: Event,
) -> (step: Result<Option<Transfer>, ErrorCode>)
    ensures
        deposit_for_monster_spec(*old(ctx), *final(ctx), amount, timestamp, event, step),
{
    if ctx.player_token_account.owner != ctx.player {
        return Err(ErrorCode::InvalidHoldingAccount);
    }
    if amount < MIN_DEPOSIT {
        return Err(ErrorCode::InsufficientDeposit);
    }
    let seeds = seeds_of_record("deposit", &ctx.player, timestamp);
    let (address, bump) = match Pubkey::find_program_address(&seeds, &ctx.program_id) {
        Ok(derived) => derived,
        Err(refusal) => {
            return Err(refusal);
        },
    };
    if ctx.deposit_records.contains_key(&address) {
        return Err(ErrorCode::DuplicateDeposit);
    }
    match event {
        Event::Entered => Ok(
            Some(
                Transfer {
                    from: ctx.player_token_account.key,
                    to: ctx.vault_token_account,
                    authority: ctx.player,
                    amount,
                },
            ),
        ),
        Event::Failed(code) => Err(ErrorCode::InvocationFailed(code)),
        Event::Applied => match credit(ctx.vault.total_deposits, amount) {
            Ok(total) => {
                let record = DepositRecord {
                    player: ctx.player,
                    amount,
                    timestamp,
                    claimed: false,
                    tier: calculate_tier(amount),
                    bump,
                };
                ctx.deposit_records.create(address, record);
                ctx.vault.total_deposits = total;
                Ok(None)
            },
            Err(overflow) => Err(overflow),
        },
    }
}

/// Claims the monster of a deposit, once.
pub fn claim_monster(ctx: &mut ClaimMonster) -> (done: Result<(), ErrorCode>)
    ensures
        claim_monster_spec(*old(ctx), *final(ctx), done),
{
    if ctx.deposit_record.player != ctx.player {
        return Err(ErrorCode::Unauthorized);
    }
    if ctx.deposit_record.claimed {
        return Err(ErrorCode::AlreadyClaimed);
    }
    match ctx.vault.total_monsters_minted.checked_add(1) {
        Some(total) => {
            ctx.deposit_record.claimed = true;
            ctx.vault.total_monsters_minted = total;
            Ok(())
        },
        None => Err(ErrorCode::ArithmeticOverflow),
    }
}

/// Approves `token_mint` as a token that can be deposited.
pub fn whitelist_token(
    ctx: &mut WhitelistToken,
    token_mint: Pubkey,
) -> (done: Result<(), ErrorCode>)
    ensures
        whitelist_token_spec(*old(ctx), *final(ctx), token_mint, done),
{
    if ctx.vault.authority != ctx.authority {
        return Err(ErrorCode::Unauthorized);
    }
    let seeds = seeds_of_key("whitelist", &ctx.token_mint);
    match Pubkey::find_program_address(&seeds, &ctx.program_id) {
        Ok((address, bump)) => {
            ctx.whitelist.put(address, TokenWhitelist { token_mint, enabled: true, bump });
            Ok(())
        },
        Err(refusal) => Err(refusal),
    }
}

/// Hands the authority over the vault on, where a new one is named.
pub fn update_vault(ctx: &mut UpdateVault, new_authority: Option<Pubkey>) -> (done: Result<
    (),
    ErrorCode,
>)
    ensures
        update_vault_spec(*old(ctx), *final(ctx), new_authority, done),
{
    if ctx.vault.authority != ctx.authority {
        return Err(ErrorCode::Unauthorized);
    }
    match new_authority {
        Some(authority) => {
            ctx.vault.authority = authority;
        },
        None => {},
    }
    Ok(())
}

} // verus!
