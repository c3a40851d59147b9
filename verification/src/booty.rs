//! The reward-token program: it sets up the supply state of the token, mints
//! to players under an optional cap, and counts what players burn.

use vstd::prelude::*;
pub use crate::error::ErrorCode;
use crate::cpi::{Burn, Event, MintTo, TokenAccount};
use crate::pubkey::{
    derived_address,
    seeds_of_signer,
    seeds_of_tag,
    signer_seeds,
    tag_seeds,
    Pubkey,
};
use crate::supply::{
    cap_refusal,
    check_cap,
    check_mint,
    credit,
    credited,
    mint_refusal,
    net,
    net_supply,
    within_cap,
};

verus! {

/// The supply state of the reward token.
#[derive(Clone, Copy, Debug, PartialEq, Eq)]
pub struct BootyConfig {
    /// The token mint that this state counts for.
    pub mint: Pubkey,
    /// Who may hand the authority on and move the cap.
    pub mint_authority: Pubkey,
    /// All that was ever minted.
    pub total_mined: u64,
    /// All that was ever burned.
    pub total_burned: u64,
    /// The most that may ever be minted, where there is such a cap.
    pub max_supply: Option<u64>,
    /// The bump seed of the state's own address.
    pub bump: u8,
}

impl BootyConfig {
    /// The bytes that the stored state takes.
    pub const LEN: usize = 8 + 32 + 32 + 8 + 8 + 1 + 8 + 1;

    /// Whether what was minted respects the cap, where there is one.
    pub open spec fn within_cap(self) -> bool {
        within_cap(self.total_mined, self.max_supply)
    }

    /// The tokens in circulation: what was minted less what was burned; none
    /// where more was burned than minted.
    pub fn net_supply(&self) -> (circulating: Option<u64>)
        ensures
            circulating == net(self.total_mined, self.total_burned),
    {
        net_supply(self.total_mined, self.total_burned)
    }
}

/// The accounts of `initialize`.
#[derive(Clone, Copy, Debug, PartialEq, Eq)]
pub struct Initialize {
    /// The program, under which the state's address is derived.
    pub program_id: Pubkey,
    /// The token mint.
    pub mint: Pubkey,
    /// What lies at the state's address: nothing before the set-up.
    pub config: Option<BootyConfig>,
    /// The signer that sets the program up.
    pub authority: Pubkey,
}

/// The accounts of `mine_tokens`.
#[derive(Clone, Copy, Debug, PartialEq, Eq)]
pub struct MineTokens {
    /// The program, under which the state's address is derived.
    pub program_id: Pubkey,
    /// The token mint.
    pub mint: Pubkey,
    /// The supply state, which is also the mint's authority.
    pub config: BootyConfig,
    /// The player's wallet.
    pub player: Pubkey,
    /// The player's token account, which receives the tokens.
    pub player_token_account: Pubkey,
    /// The signer that pays for the accounts.
    pub payer: Pubkey,
}

/// The accounts of `burn_tokens`.
#[derive(Clone, Copy, Debug, PartialEq, Eq)]
pub struct BurnTokens {
    /// The token mint.
    pub mint: Pubkey,
    /// The supply state.
    pub config: BootyConfig,
    /// The signer whose tokens are burned.
    pub player: Pubkey,
    /// The player's token account.
    pub player_token_account: TokenAccount,
}

/// The accounts of `update_authority` and `update_max_supply`.
#[derive(Clone, Copy, Debug, PartialEq, Eq)]
pub struct UpdateAuthority {
    /// The supply state.
    pub config: BootyConfig,
    /// The signer.
    pub authority: Pubkey,
}

/// Why `initialize` is refused, if it is: the state exists already, or its
/// address cannot be derived.
pub open spec fn initialize_refusal(ctx: Initialize) -> Option<ErrorCode> {
    if ctx.config.is_some() {
        Some(ErrorCode::AlreadyInitialized)
    } else if derived_address(tag_seeds("config"), ctx.program_id).is_none() {
        Some(ErrorCode::AddressDerivationExhausted)
    } else {
        None
    }
}

/// What `initialize` does: it creates the state for the mint, under the
/// signer's authority, with nothing minted or burned and the cap as given.
pub open spec fn initialize_spec(
    pre: Initialize,
    post: Initialize,
    max_supply: Option<u64>,
    done: Result<(), ErrorCode>,
) -> bool {
    match initialize_refusal(pre) {
        Some(refusal) => done == Err::<(), ErrorCode>(refusal) && post == pre,
        None => done == Ok::<(), ErrorCode>(()) && post == (Initialize {
            config: Some(
                BootyConfig {
                    mint: pre.mint,
                    mint_authority: pre.authority,
                    total_mined: 0,
                    total_burned: 0,
                    max_supply,
                    bump: derived_address(tag_seeds("config"), pre.program_id).unwrap().1,
                },
            ),
            ..pre
        }),
    }
}

/// Why `mine_tokens` is refused before anything is invoked, if it is: the mint
/// is another than the state's, the state's address cannot be derived, or the
/// cap forbids the amount.
pub open spec fn mine_tokens_refusal(ctx: MineTokens, amount: u64) -> Option<ErrorCode> {
    if ctx.mint != ctx.config.mint {
        Some(ErrorCode::InvalidMint)
    } else if derived_address(tag_seeds("config"), ctx.program_id).is_none() {
        Some(ErrorCode::AddressDerivationExhausted)
    } else {
        mint_refusal(ctx.config.total_mined, ctx.config.max_supply, amount)
    }
}

/// What `mine_tokens` does. When entered it asks for the minting of `amount`
/// into the player's token account, with the state's own address as the
/// authority. Once that was applied it adds `amount` to what was minted.
pub open spec fn mine_tokens_spec(
    pre: MineTokens,
    post: MineTokens,
    amount: u64,
    event: Event,
    step: Result<Option<MintTo>, ErrorCode>,
) -> bool {
    match mine_tokens_refusal(pre, amount) {
        Some(refusal) => step == Err::<Option<MintTo>, ErrorCode>(refusal) && post == pre,
        None => match event {
            Event::Entered => step == Ok::<Option<MintTo>, ErrorCode>(
                Some(
                    MintTo {
                        mint: pre.mint,
                        to: pre.player_token_account,
                        authority: derived_address(tag_seeds("config"), pre.program_id).unwrap().0,
                        amount,
                    },
                ),
            ) && post == pre,
            Event::Failed(code) => step == Err::<Option<MintTo>, ErrorCode>(
                ErrorCode::InvocationFailed(code),
            ) && post == pre,
            Event::Applied => match credited(pre.config.total_mined, amount) {
                Ok(total) => step == Ok::<Option<MintTo>, ErrorCode>(None) && post == (MineTokens {
                    config: BootyConfig { total_mined: total, ..pre.config },
                    ..pre
                }),
                Err(overflow) => step == Err::<Option<MintTo>, ErrorCode>(overflow) && post == pre,
            },
        },
    }
}

/// Why `burn_tokens` is refused before anything is invoked, if it is: the mint
/// is another than the state's, or the token account is not the player's.
pub open spec fn burn_tokens_refusal(ctx: BurnTokens) -> Option<ErrorCode> {
    if ctx.mint != ctx.config.mint {
        Some(ErrorCode::InvalidMint)
    } else if ctx.player_token_account.owner != ctx.player {
        Some(ErrorCode::InvalidHoldingAccount)
    } else {
        None
    }
}

/// What `burn_tokens` does. When entered it asks for the burning of `amount`
/// out of the player's token account, signed by the player. Once that was
/// applied it adds `amount` to what was burned.
pub open spec fn burn_tokens_spec(
    pre: BurnTokens,
    post: BurnTokens,
    amount: u64,
    event: Event,
    step: Result<Option<Burn>, ErrorCode>,
) -> bool {
    match burn_tokens_refusal(pre) {
        Some(refusal) => step == Err::<Option<Burn>, ErrorCode>(refusal) && post == pre,
        None => match event {
            Event::Entered => step == Ok::<Option<Burn>, ErrorCode>(
                Some(
                    Burn {
                        mint: pre.mint,
                        from: pre.player_token_account.key,
                        authority: pre.player,
                        amount,
                    },
                ),
            ) && post == pre,
            Event::Failed(code) => step == Err::<Option<Burn>, ErrorCode>(
                ErrorCode::InvocationFailed(code),
            ) && post == pre,
            Event::Applied => match credited(pre.config.total_burned, amount) {
                Ok(total) => step == Ok::<Option<Burn>, ErrorCode>(None) && post == (BurnTokens {
                    config: BootyConfig { total_burned: total, ..pre.config },
                    ..pre
                }),
                Err(overflow) => step == Err::<Option<Burn>, ErrorCode>(overflow) && post == pre,
            },
        },
    }
}

/// What `update_authority` does: the authority, and nobody else, hands the
/// authority on.
pub open spec fn update_authority_spec(
    pre: UpdateAuthority,
    post: UpdateAuthority,
    new_authority: Pubkey,
    done: Result<(), ErrorCode>,
) -> bool {
    if pre.config.mint_authority != pre.authority {
        done == Err::<(), ErrorCode>(ErrorCode::Unauthorized) && post == pre
    } else {
        done == Ok::<(), ErrorCode>(()) && post == (UpdateAuthority {
            config: BootyConfig { mint_authority: new_authority, ..pre.config },
            ..pre
        })
    }
}

/// Why `update_max_supply` is refused, if it is: the signer is not the
/// authority, or the cap in force would be lowered.
pub open spec fn update_max_supply_refusal(
    ctx: UpdateAuthority,
    new_max_supply: Option<u64>,
) -> Option<
    ErrorCode,
> {
    if ctx.config.mint_authority != ctx.authority {
        Some(ErrorCode::Unauthorized)
    } else {
        cap_refusal(ctx.config.max_supply, new_max_supply)
    }
}

/// What `update_max_supply` does: the authority raises the cap, lifts it, or
/// sets one where there was none.
pub open spec fn update_max_supply_spec(
    pre: UpdateAuthority,
    post: UpdateAuthority,
    new_max_supply: Option<u64>,
    done: Result<(), ErrorCode>,
) -> bool {
    match update_max_supply_refusal(pre, new_max_supply) {
        Some(refusal) => done == Err::<(), ErrorCode>(refusal) && post == pre,
        None => done == Ok::<(), ErrorCode>(()) && post == (UpdateAuthority {
            config: BootyConfig { max_supply: new_max_supply, ..pre.config },
            ..pre
        }),
    }
}

/// A supply state that was just set up has nothing minted and nothing burned,
/// and so is within its cap, whatever the cap.
pub proof fn lemma_fresh_supply_within_cap(
    pre: Initialize,
    post: Initialize,
    max_supply: Option<u64>,
    done: Result<(), ErrorCode>,
)
    requires
        initialize_spec(pre, post, max_supply, done),
        done.is_ok(),
    ensures
        pre.config.is_none(),
        post.config matches Some(config) && config.total_mined == 0 && config.total_burned == 0
            && config.max_supply == max_supply && config.within_cap(),
{
}

/// A step of `mine_tokens` keeps what was minted within the cap and leaves the
/// cap alone; and an amount that would carry the total over the cap, while it
/// fits in a `u64`, is refused as exceeding the supply and changes nothing.
pub proof fn lemma_mine_tokens_within_cap(
    pre: MineTokens,
    post: MineTokens,
    amount: u64,
    event: Event,
    step: Result<Option<MintTo>, ErrorCode>,
)
    requires
        mine_tokens_spec(pre, post, amount, event, step),
    ensures
        post.config.max_supply == pre.config.max_supply,
        pre.config.within_cap() ==> post.config.within_cap(),
        pre.config.max_supply matches Some(cap) && pre.config.total_mined + amount > cap ==> post
            == pre && step.is_err(),
        pre.config.max_supply matches Some(cap) && cap < pre.config.total_mined + amount
            <= u64::MAX && pre.mint == pre.config.mint && derived_address(
            tag_seeds("config"),
            pre.program_id,
        ).is_some() ==> step == Err::<Option<MintTo>, ErrorCode>(ErrorCode::MaxSupplyExceeded),
{
}

/// However many steps of `mine_tokens` follow one another, what was minted
/// stays within the cap that it was within at first, and the cap stays.
pub proof fn lemma_mines_within_cap(
    states: Seq<MineTokens>,
    amounts: Seq<u64>,
    events: Seq<Event>,
    steps: Seq<Result<Option<MintTo>, ErrorCode>>,
    upto: int,
)
    requires
        states.len() == amounts.len() + 1,
        events.len() == amounts.len(),
        steps.len() == amounts.len(),
        states[0].config.within_cap(),
        forall|i: int|
            0 <= i < amounts.len() ==> mine_tokens_spec(
                states[i],
                states[i + 1],
                amounts[i],
                events[i],
                #[trigger] steps[i],
            ),
        0 <= upto < states.len(),
    ensures
        states[upto].config.within_cap(),
        states[upto].config.max_supply == states[0].config.max_supply,
    decreases upto,
{
    if upto > 0 {
        lemma_mines_within_cap(states, amounts, events, steps, upto - 1);
        let i = upto - 1;
        assert(mine_tokens_spec(states[i], states[i + 1], amounts[i], events[i], steps[i]));
        lemma_mine_tokens_within_cap(states[i], states[i + 1], amounts[i], events[i], steps[i]);
    }
}

/// No step of `mine_tokens` or `burn_tokens` lowers a counter of the supply: a
/// mint that was applied adds its amount to what was minted, a burn that was
/// applied adds its amount to what was burned, and nothing else moves.
pub proof fn lemma_supply_counts_never_fall(
    mine: (MineTokens, MineTokens),
    mined: u64,
    mine_event: Event,
    mine_step: Result<Option<MintTo>, ErrorCode>,
    burn: (BurnTokens, BurnTokens),
    burned: u64,
    burn_event: Event,
    burn_step: Result<Option<Burn>, ErrorCode>,
)
    requires
        mine_tokens_spec(mine.0, mine.1, mined, mine_event, mine_step),
        burn_tokens_spec(burn.0, burn.1, burned, burn_event, burn_step),
    ensures
        mine.1.config.total_mined == mine.0.config.total_mined + (if mine_step == Ok::<
            Option<MintTo>,
            ErrorCode,
        >(None) {
            mined
        } else {
            0
        }),
        mine.1.config.total_burned == mine.0.config.total_burned,
        burn.1.config.total_burned == burn.0.config.total_burned + (if burn_step == Ok::<
            Option<Burn>,
            ErrorCode,
        >(None) {
            burned
        } else {
            0
        }),
        burn.1.config.total_mined == burn.0.config.total_mined,
{
}

/// The authority can always lift the cap, and can never lower one in force;
/// these are the only moves of the cap that it is refused.
pub proof fn lemma_max_supply_never_lowered(
    pre: UpdateAuthority,
    post: UpdateAuthority,
    new_max_supply: Option<u64>,
    done: Result<(), ErrorCode>,
)
    requires
        update_max_supply_spec(pre, post, new_max_supply, done),
        pre.config.mint_authority == pre.authority,
    ensures
        new_max_supply.is_none() ==> done.is_ok() && post.config.max_supply.is_none(),
        done.is_err() <==> (pre.config.max_supply matches Some(cap) && new_max_supply matches Some(
            new_cap,
        ) && new_cap < cap),
        done.is_err() ==> done == Err::<(), ErrorCode>(ErrorCode::CannotDecreaseMaxSupply) && post
            == pre,
        done.is_ok() ==> post.config.max_supply == new_max_supply,
{
}

/// A move of the cap that was accepted leaves what was minted as it was, and
/// leaves it within the cap exactly where the cap was lifted or the new cap is
/// at least what was minted. A cap that is set where there was none may thus lie
/// below what was minted; a cap that replaces one that was kept keeps being kept.
pub proof fn lemma_cap_move_within_cap(
    pre: UpdateAuthority,
    post: UpdateAuthority,
    new_max_supply: Option<u64>,
    done: Result<(), ErrorCode>,
)
    requires
        update_max_supply_spec(pre, post, new_max_supply, done),
        done.is_ok(),
    ensures
        post.config.total_mined == pre.config.total_mined,
        post.config.total_burned == pre.config.total_burned,
        post.config.within_cap() <==> (new_max_supply matches Some(new_cap)
            ==> pre.config.total_mined <= new_cap),
        pre.config.max_supply.is_some() && pre.config.within_cap() ==> post.config.within_cap(),
{
}

impl MineTokens {
    /// The seeds with which the program signs the minting for its supply state.
    pub fn signer_seeds(&self) -> (seeds: Vec<Vec<u8>>)
        ensures
            seeds.deep_view() == signer_seeds("config", self.config.bump),
    {
        seeds_of_signer("config", self.config.bump)
    }
}

/// Sets up the supply state of the token: nothing minted, nothing burned, the
/// cap as given. `decimals` is the scale that the mint was created with; the
/// state does not keep it.
pub fn initialize(ctx: &mut Initialize, decimals: u8, max_supply: Option<u64>) -> (done: Result<
    (),
    ErrorCode,
>)
    ensures
        initialize_spec(*old(ctx), *final(ctx), max_supply, done),
{
    if ctx.config.is_some() {
        return Err(ErrorCode::AlreadyInitialized);
    }
    let seeds = seeds_of_tag("config");
    match Pubkey::find_program_address(&seeds, &ctx.program_id) {
        Ok((_, bump)) => {
            ctx.config = Some(
                BootyConfig {
                    mint: ctx.mint,
                    mint_authority: ctx.authority,
                    total_mined: 0,
                    total_burned: 0,
                    max_supply,
                    bump,
                },
            );
            Ok(())
        },
        Err(refusal) => Err(refusal),
    }
}

/// Mines tokens for a player: mints `amount` into the player's token account
/// and counts it as minted.
pub fn mine_tokens(ctx: &mut MineTokens, amount: u64, event: Event) -> (step: Result<
    Option<MintTo>,
    ErrorCode,
>)
    ensures
        mine_tokens_spec(*old(ctx), *final(ctx), amount, event, step),
{
    if ctx.mint != ctx.config.mint {
        return Err(ErrorCode::InvalidMint);
    }
    let seeds = seeds_of_tag("config");
    let authority = match Pubkey::find_program_address(&seeds, &ctx.program_id) {
        Ok((address, _)) => address,
        Err(refusal) => {
            return Err(refusal);
        },
    };
    match check_mint(ctx.config.total_mined, ctx.config.max_supply, amount) {
        Ok(()) => {},
        Err(refusal) => {
            return Err(refusal);
        },
    }
    match event {
        Event::Entered => Ok(
            Some(MintTo { mint: ctx.mint, to: ctx.player_token_account, authority, amount }),
        ),
        Event::Failed(code) => Err(ErrorCode::InvocationFailed(code)),
        Event::Applied => match credit(ctx.config.total_mined, amount) {
            Ok(total) => {
                ctx.config.total_mined = total;
                Ok(None)
            },
            Err(overflow) => Err(overflow),
        },
    }
}

/// Burns tokens of a player: burns `amount` out of the player's token account
/// and counts it as burned.
pub fn burn_tokens(ctx: &mut BurnTokens, amount: u64, event: Event) -> (step: Result<
    Option<Burn>,
    ErrorCode,
>)
    ensures
        burn_tokens_spec(*old(ctx), *final(ctx), amount, event, step),
{
    if ctx.mint != ctx.config.mint {
        return Err(ErrorCode::InvalidMint);
    }
    if ctx.player_token_account.owner != ctx.player {
        return Err(ErrorCode::InvalidHoldingAccount);
    }
    match event {
        Event::Entered => Ok(
            Some(
                Burn {
                    mint: ctx.mint,
                    from: ctx.player_token_account.key,
                    authority: ctx.player,
                    amount,
                },
            ),
        ),
        Event::Failed(code) => Err(ErrorCode::InvocationFailed(code)),
        Event::Applied => match credit(ctx.config.total_burned, amount) {
            Ok(total) => {
                ctx.config.total_burned = total;
                Ok(None)
            },
            Err(overflow) => Err(overflow),
        },
    }
}

/// Hands the authority over the supply state on to `new_authority`.
pub fn update_authority(ctx: &mut UpdateAuthority, new_authority: Pubkey) -> (done: Result<
    (),
    ErrorCode,
>)
    ensures
        update_authority_spec(*old(ctx), *final(ctx), new_authority, done),
{
    if ctx.config.mint_authority != ctx.authority {
        return Err(ErrorCode::Unauthorized);
    }
    ctx.config.mint_authority = new_authority;
    Ok(())
}

/// Moves the cap: up, away, or into place where there was none; never down.
pub fn update_max_supply(ctx: &mut UpdateAuthority, new_max_supply: Option<u64>) -> (done: Result<
    (),
    ErrorCode,
>)
    ensures
        update_max_supply_spec(*old(ctx), *final(ctx), new_max_supply, done),
{
    if ctx.config.mint_authority != ctx.authority {
        return Err(ErrorCode::Unauthorized);
    }
    match check_cap(ctx.config.max_supply, new_max_supply) {
        Ok(()) => {
            ctx.config.max_supply = new_max_supply;
            Ok(())
        },
        Err(refusal) => Err(refusal),
    }
}

} // verus!
