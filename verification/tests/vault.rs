use treasure_game::cpi::{Event, TokenAccount, Transfer};
use treasure_game::error::ErrorCode;
use treasure_game::game::{
    calculate_tier, claim_treasure, hide_treasure, initialize_vault, search_treasure, update_vault,
    whitelist_token, ClaimTreasure, HideTreasure, InitializeVault, SearchRecord, SearchTreasure,
    TokenWhitelist, TreasureRecord, TreasureVault, UpdateVault, WhitelistToken, MIN_TREASURE, TOKEN,
};
use treasure_game::ledger::Ledger;
use treasure_game::pubkey::{seeds_of_key, seeds_of_record, seeds_of_tag, Pubkey};

fn key(byte: u8) -> Pubkey {
    Pubkey::new_from_array([byte; 32])
}

const PROGRAM: u8 = 100;
const ADMIN: u8 = 2;
const PLAYER: u8 = 3;
const WALLET: u8 = 4;
const CUSTODY: u8 = 5;

fn new_vault() -> TreasureVault {
    let mut ctx = InitializeVault { program_id: key(PROGRAM), vault: None, authority: key(ADMIN) };
    assert_eq!(initialize_vault(&mut ctx), Ok(()));
    ctx.vault.unwrap()
}

fn hider(vault: TreasureVault) -> HideTreasure {
    HideTreasure {
        program_id: key(PROGRAM),
        player: key(PLAYER),
        player_token_account: TokenAccount { key: key(WALLET), owner: key(PLAYER) },
        vault_token_account: key(CUSTODY),
        vault,
        treasure_records: Ledger::new(),
    }
}

fn bury(ctx: &mut HideTreasure, amount: u64, treasure_id: i64) -> Result<(), ErrorCode> {
    let asked = hide_treasure(ctx, amount, treasure_id, Event::Entered)?;
    assert_eq!(
        asked,
        Some(Transfer { from: key(WALLET), to: key(CUSTODY), authority: ctx.player, amount })
    );
    assert_eq!(hide_treasure(ctx, amount, treasure_id, Event::Applied)?, None);
    Ok(())
}

fn treasure_address(player: &Pubkey, treasure_id: i64) -> (Pubkey, u8) {
    Pubkey::find_program_address(&seeds_of_record("treasure", player, treasure_id), &key(PROGRAM)).unwrap()
}

#[test]
fn tier_steps_at_whole_tokens() {
    assert_eq!(calculate_tier(99_999_999), 1);
    assert_eq!(calculate_tier(100_000_000), 1);
    assert_eq!(calculate_tier(1_000_000_000), 2);
    assert_eq!(calculate_tier(10_000_000_000), 3);
    assert_eq!(calculate_tier(100_000_000_000), 4);
    assert_eq!(calculate_tier(0), 1);
    assert_eq!(calculate_tier(999_999_999), 1);
    assert_eq!(calculate_tier(9_999_999_999), 2);
    assert_eq!(calculate_tier(99_999_999_999), 3);
    assert_eq!(calculate_tier(u64::MAX), 4);
    assert_eq!(TOKEN, 1_000_000);
    assert_eq!(MIN_TREASURE, 100 * TOKEN);
}

#[test]
fn tier_never_falls_as_the_amount_grows() {
    let amounts = [
        0u64,
        1,
        99_999_999,
        100_000_000,
        999_999_999,
        1_000_000_000,
        5_000_000_000,
        9_999_999_999,
        10_000_000_000,
        99_999_999_999,
        100_000_000_000,
        u64::MAX,
    ];
    let mut last = 1u8;
    for amount in amounts {
        let tier = calculate_tier(amount);
        assert!(last <= tier && tier <= 4);
        assert_eq!(tier, calculate_tier(amount));
        last = tier;
    }
}

#[test]
fn initialize_vault_starts_from_zero_once() {
    let vault = new_vault();
    let (_, bump) = Pubkey::find_program_address(&seeds_of_tag("vault"), &key(PROGRAM)).unwrap();
    assert_eq!(vault, TreasureVault { authority: key(ADMIN), total_hidden: 0, total_claimed: 0, bump });
    let mut again = InitializeVault { program_id: key(PROGRAM), vault: Some(vault), authority: key(PLAYER) };
    assert_eq!(initialize_vault(&mut again), Err(ErrorCode::AlreadyInitialized));
    assert_eq!(again.vault, Some(vault));
}

#[test]
fn vault_scenario_hide_claim_claim() {
    let mut ctx = hider(new_vault());
    assert_eq!(bury(&mut ctx, 100_000_000, 1), Ok(()));
    let (address, bump) = treasure_address(&key(PLAYER), 1);
    let record = *ctx.treasure_records.get(&address).unwrap();
    assert_eq!(
        record,
        TreasureRecord {
            player: key(PLAYER),
            amount: 100_000_000,
            timestamp: 1,
            claimed: false,
            tier: 1,
            bump,
        }
    );
    assert_eq!(ctx.vault.total_hidden, 100_000_000);
    assert_eq!(ctx.vault.total_claimed, 0);

    let mut claim = ClaimTreasure { player: key(PLAYER), treasure_record: record, vault: ctx.vault };
    assert_eq!(claim_treasure(&mut claim), Ok(()));
    assert!(claim.treasure_record.claimed);
    assert_eq!(claim.vault.total_claimed, 1);
    assert_eq!(claim.vault.total_hidden, 100_000_000);

    let after = claim;
    assert_eq!(claim_treasure(&mut claim), Err(ErrorCode::AlreadyClaimed));
    assert_eq!(claim, after);
    assert_eq!(claim.vault.total_claimed, 1);
}

#[test]
fn hide_treasure_refuses_a_nonce_twice() {
    let mut ctx = hider(new_vault());
    assert_eq!(bury(&mut ctx, 100_000_000, 1), Ok(()));
    let before = ctx.clone();
    assert_eq!(hide_treasure(&mut ctx, 250_000_000, 1, Event::Entered), Err(ErrorCode::DuplicateDeposit));
    assert_eq!(hide_treasure(&mut ctx, 250_000_000, 1, Event::Applied), Err(ErrorCode::DuplicateDeposit));
    assert_eq!(ctx, before);
    assert_eq!(ctx.vault.total_hidden, 100_000_000);
}

#[test]
fn hide_treasure_takes_two_nonces() {
    let mut ctx = hider(new_vault());
    assert_eq!(bury(&mut ctx, 100_000_000, 1), Ok(()));
    assert_eq!(bury(&mut ctx, 2_500_000_000, 2), Ok(()));
    assert_eq!(ctx.vault.total_hidden, 2_600_000_000);
    let (first, _) = treasure_address(&key(PLAYER), 1);
    let (second, _) = treasure_address(&key(PLAYER), 2);
    assert_eq!(ctx.treasure_records.get(&first).unwrap().amount, 100_000_000);
    assert_eq!(ctx.treasure_records.get(&second).unwrap().amount, 2_500_000_000);
    assert_eq!(ctx.treasure_records.get(&second).unwrap().tier, 2);
    assert_eq!(ctx.treasure_records.get(&second).unwrap().timestamp, 2);
}

#[test]
fn hide_treasure_lets_two_players_share_a_nonce() {
    let mut ctx = hider(new_vault());
    assert_eq!(bury(&mut ctx, 100_000_000, 1), Ok(()));
    ctx.player = key(33);
    ctx.player_token_account = TokenAccount { key: key(WALLET), owner: key(33) };
    assert_eq!(bury(&mut ctx, 100_000_000, 1), Ok(()));
    assert_eq!(ctx.vault.total_hidden, 200_000_000);
    let (other, _) = treasure_address(&key(33), 1);
    assert_eq!(ctx.treasure_records.get(&other).unwrap().player, key(33));
}

#[test]
fn hide_treasure_refuses_less_than_the_minimum() {
    let mut ctx = hider(new_vault());
    let before = ctx.clone();
    assert_eq!(hide_treasure(&mut ctx, 99_999_999, 1, Event::Entered), Err(ErrorCode::InsufficientDeposit));
    assert_eq!(hide_treasure(&mut ctx, 0, 1, Event::Applied), Err(ErrorCode::InsufficientDeposit));
    assert_eq!(ctx, before);
}

#[test]
fn hide_treasure_refuses_a_token_account_of_another() {
    let mut ctx = hider(new_vault());
    ctx.player_token_account.owner = key(66);
    let before = ctx.clone();
    assert_eq!(hide_treasure(&mut ctx, 100_000_000, 1, Event::Entered), Err(ErrorCode::InvalidHoldingAccount));
    assert_eq!(hide_treasure(&mut ctx, 1, 1, Event::Entered), Err(ErrorCode::InvalidHoldingAccount));
    assert_eq!(ctx, before);
}

#[test]
fn hide_treasure_gives_up_when_the_transfer_fails() {
    let mut ctx = hider(new_vault());
    let before = ctx.clone();
    assert_eq!(hide_treasure(&mut ctx, 100_000_000, 1, Event::Failed(1)), Err(ErrorCode::InvocationFailed(1)));
    assert_eq!(ctx, before);
    assert_eq!(bury(&mut ctx, 100_000_000, 1), Ok(()));
}

#[test]
fn hide_treasure_reports_a_full_vault() {
    let mut vault = new_vault();
    vault.total_hidden = u64::MAX - 100_000_000;
    let mut ctx = hider(vault);
    let before = ctx.clone();
    assert!(hide_treasure(&mut ctx, 100_000_001, 1, Event::Entered).unwrap().is_some());
    assert_eq!(hide_treasure(&mut ctx, 100_000_001, 1, Event::Applied), Err(ErrorCode::ArithmeticOverflow));
    assert_eq!(ctx, before);
    assert_eq!(bury(&mut ctx, 100_000_000, 1), Ok(()));
    assert_eq!(ctx.vault.total_hidden, u64::MAX);
}

#[test]
fn claim_treasure_is_for_the_one_who_hid_it() {
    let record = TreasureRecord { player: key(PLAYER), amount: 100_000_000, timestamp: 1, claimed: false, tier: 1, bump: 255 };
    let mut claim = ClaimTreasure { player: key(ADMIN), treasure_record: record, vault: new_vault() };
    let before = claim;
    assert_eq!(claim_treasure(&mut claim), Err(ErrorCode::Unauthorized));
    assert_eq!(claim, before);
    claim.treasure_record.claimed = true;
    assert_eq!(claim_treasure(&mut claim), Err(ErrorCode::Unauthorized));
}

#[test]
fn claim_treasure_reports_a_full_count() {
    let record = TreasureRecord { player: key(PLAYER), amount: 100_000_000, timestamp: 1, claimed: false, tier: 1, bump: 255 };
    let mut vault = new_vault();
    vault.total_claimed = u64::MAX;
    let mut claim = ClaimTreasure { player: key(PLAYER), treasure_record: record, vault };
    assert_eq!(claim_treasure(&mut claim), Err(ErrorCode::ArithmeticOverflow));
    assert!(!claim.treasure_record.claimed);
    assert_eq!(claim.vault.total_claimed, u64::MAX);
}

#[test]
fn search_treasure_records_the_place() {
    let mut ctx = SearchTreasure { program_id: key(PROGRAM), player: key(PLAYER), search_records: Ledger::new() };
    assert_eq!(search_treasure(&mut ctx, -7, 12, 40), Ok(()));
    let (address, bump) =
        Pubkey::find_program_address(&seeds_of_record("search", &key(PLAYER), 40), &key(PROGRAM)).unwrap();
    assert_eq!(
        ctx.search_records.get(&address),
        Some(&SearchRecord { player: key(PLAYER), x: -7, y: 12, timestamp: 40, found: false, bump })
    );
}

#[test]
fn search_treasure_refuses_a_nonce_twice() {
    let mut ctx = SearchTreasure { program_id: key(PROGRAM), player: key(PLAYER), search_records: Ledger::new() };
    assert_eq!(search_treasure(&mut ctx, 1, 2, 40), Ok(()));
    let before = ctx.clone();
    assert_eq!(search_treasure(&mut ctx, 3, 4, 40), Err(ErrorCode::DuplicateSearch));
    assert_eq!(ctx, before);
    assert_eq!(search_treasure(&mut ctx, 1, 2, 41), Ok(()));
    assert_eq!(search_treasure(&mut ctx, 1, 2, -40), Ok(()));
}

#[test]
fn whitelist_token_is_for_the_authority_and_can_be_repeated() {
    let vault = new_vault();
    let mut ctx = WhitelistToken {
        program_id: key(PROGRAM),
        whitelist: Ledger::new(),
        token_mint: key(50),
        vault,
        authority: key(PLAYER),
    };
    assert_eq!(whitelist_token(&mut ctx, key(50)), Err(ErrorCode::Unauthorized));
    ctx.authority = key(ADMIN);
    assert_eq!(whitelist_token(&mut ctx, key(50)), Ok(()));
    let (address, bump) =
        Pubkey::find_program_address(&seeds_of_key("whitelist", &key(50)), &key(PROGRAM)).unwrap();
    let entry = TokenWhitelist { token_mint: key(50), enabled: true, bump };
    assert_eq!(ctx.whitelist.get(&address), Some(&entry));
    let once = ctx.clone();
    assert_eq!(whitelist_token(&mut ctx, key(50)), Ok(()));
    assert_eq!(ctx, once);
    assert_eq!(ctx.vault, vault);
}

#[test]
fn update_vault_hands_the_authority_on() {
    let vault = new_vault();
    let mut ctx = UpdateVault { vault, authority: key(PLAYER) };
    assert_eq!(update_vault(&mut ctx, Some(key(PLAYER))), Err(ErrorCode::Unauthorized));
    assert_eq!(update_vault(&mut ctx, None), Err(ErrorCode::Unauthorized));
    assert_eq!(ctx.vault, vault);
    ctx.authority = key(ADMIN);
    assert_eq!(update_vault(&mut ctx, None), Ok(()));
    assert_eq!(ctx.vault, vault);
    assert_eq!(update_vault(&mut ctx, Some(key(PLAYER))), Ok(()));
    assert_eq!(ctx.vault.authority, key(PLAYER));
    assert_eq!(update_vault(&mut ctx, Some(key(ADMIN))), Err(ErrorCode::Unauthorized));
}

#[test]
fn stored_game_records_take_their_bytes() {
    assert_eq!(TreasureVault::LEN, 57);
    assert_eq!(TreasureRecord::LEN, 59);
    assert_eq!(SearchRecord::LEN, 58);
    assert_eq!(TokenWhitelist::LEN, 42);
}
