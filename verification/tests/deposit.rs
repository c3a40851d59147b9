use treasure_game::cpi::{Event, TokenAccount, Transfer};
use treasure_game::error::ErrorCode;
use treasure_game::ledger::Ledger;
use treasure_game::pubkey::{seeds_of_key, seeds_of_record, seeds_of_tag, Pubkey};
use treasure_game::treasure_deposit::{
    claim_monster, deposit_for_monster, initialize, update_vault, whitelist_token, ClaimMonster,
    DepositForMonster, DepositRecord, Initialize, TokenWhitelist, TreasureVault, UpdateVault,
    WhitelistToken, MIN_DEPOSIT,
};

fn key(byte: u8) -> Pubkey {
    Pubkey::new_from_array([byte; 32])
}

const PROGRAM: u8 = 101;
const ADMIN: u8 = 2;
const PLAYER: u8 = 3;
const WALLET: u8 = 4;
const CUSTODY: u8 = 5;

fn new_vault() -> TreasureVault {
    let mut ctx = Initialize { program_id: key(PROGRAM), vault: None, authority: key(ADMIN) };
    assert_eq!(initialize(&mut ctx), Ok(()));
    ctx.vault.unwrap()
}

fn depositor(vault: TreasureVault) -> DepositForMonster {
    DepositForMonster {
        program_id: key(PROGRAM),
        player: key(PLAYER),
        player_token_account: TokenAccount { key: key(WALLET), owner: key(PLAYER) },
        vault_token_account: key(CUSTODY),
        vault,
        deposit_records: Ledger::new(),
    }
}

fn deposit(ctx: &mut DepositForMonster, amount: u64, timestamp: i64) -> Result<(), ErrorCode> {
    let asked = deposit_for_monster(ctx, amount, timestamp, Event::Entered)?;
    assert_eq!(
        asked,
        Some(Transfer { from: key(WALLET), to: key(CUSTODY), authority: ctx.player, amount })
    );
    assert_eq!(deposit_for_monster(ctx, amount, timestamp, Event::Applied)?, None);
    Ok(())
}

fn recorded(amount: u64, timestamp: i64) -> DepositRecord {
    let mut ctx = depositor(new_vault());
    assert_eq!(deposit(&mut ctx, amount, timestamp), Ok(()));
    let (address, _) = Pubkey::find_program_address(
        &seeds_of_record("deposit", &key(PLAYER), timestamp),
        &key(PROGRAM),
    )
    .unwrap();
    *ctx.deposit_records.get(&address).unwrap()
}

#[test]
fn deposit_of_500_whole_tokens_is_of_tier_one() {
    let record = recorded(500_000_000, 7);
    assert_eq!(record.tier, 1);
    assert!(!record.claimed);
    assert_eq!(record.amount, 500_000_000);
    assert_eq!(record.player, key(PLAYER));
    assert_eq!(record.timestamp, 7);
}

#[test]
fn deposit_records_the_tier_of_its_amount() {
    assert_eq!(MIN_DEPOSIT, 100_000_000);
    assert_eq!(recorded(100_000_000, 1).tier, 1);
    assert_eq!(recorded(999_999_999, 2).tier, 1);
    assert_eq!(recorded(1_000_000_000, 3).tier, 2);
    assert_eq!(recorded(9_999_999_999, 4).tier, 2);
    assert_eq!(recorded(10_000_000_000, 5).tier, 3);
    assert_eq!(recorded(99_999_999_999, 6).tier, 3);
    assert_eq!(recorded(100_000_000_000, 7).tier, 4);
    assert_eq!(recorded(u64::MAX, 8).tier, 4);
    for amount in [100_000_000u64, 400_000_000, 500_000_000, 1_234_567_890, u64::MAX / 2] {
        let tier = recorded(amount, 9).tier;
        assert!(1 <= tier && tier <= 4);
    }
}

#[test]
fn initialize_deposit_vault_starts_from_zero_once() {
    let vault = new_vault();
    let (_, bump) = Pubkey::find_program_address(&seeds_of_tag("vault"), &key(PROGRAM)).unwrap();
    assert_eq!(
        vault,
        TreasureVault { authority: key(ADMIN), total_deposits: 0, total_monsters_minted: 0, bump }
    );
    let mut again = Initialize { program_id: key(PROGRAM), vault: Some(vault), authority: key(PLAYER) };
    assert_eq!(initialize(&mut again), Err(ErrorCode::AlreadyInitialized));
    assert_eq!(again.vault, Some(vault));
}

#[test]
fn deposit_scenario_deposit_claim_claim() {
    let mut ctx = depositor(new_vault());
    assert_eq!(deposit(&mut ctx, 300_000_000, 1_700_000_000), Ok(()));
    let (address, bump) = Pubkey::find_program_address(
        &seeds_of_record("deposit", &key(PLAYER), 1_700_000_000),
        &key(PROGRAM),
    )
    .unwrap();
    let record = *ctx.deposit_records.get(&address).unwrap();
    assert_eq!(
        record,
        DepositRecord {
            player: key(PLAYER),
            amount: 300_000_000,
            timestamp: 1_700_000_000,
            claimed: false,
            tier: 1,
            bump,
        }
    );
    assert_eq!(ctx.vault.total_deposits, 300_000_000);
    let mut claim = ClaimMonster { player: key(PLAYER), deposit_record: record, vault: ctx.vault };
    assert_eq!(claim_monster(&mut claim), Ok(()));
    assert!(claim.deposit_record.claimed);
    assert_eq!(claim.vault.total_monsters_minted, 1);
    let after = claim;
    assert_eq!(claim_monster(&mut claim), Err(ErrorCode::AlreadyClaimed));
    assert_eq!(claim, after);
}

#[test]
fn deposit_refuses_a_time_twice_and_takes_two_times() {
    let mut ctx = depositor(new_vault());
    assert_eq!(deposit(&mut ctx, 100_000_000, 10), Ok(()));
    let before = ctx.clone();
    assert_eq!(deposit_for_monster(&mut ctx, 100_000_000, 10, Event::Entered), Err(ErrorCode::DuplicateDeposit));
    assert_eq!(deposit_for_monster(&mut ctx, 700_000_000, 10, Event::Applied), Err(ErrorCode::DuplicateDeposit));
    assert_eq!(ctx, before);
    assert_eq!(deposit(&mut ctx, 700_000_000, 11), Ok(()));
    assert_eq!(ctx.vault.total_deposits, 800_000_000);
}

#[test]
fn deposit_checks_owner_minimum_overflow_and_failure() {
    let vault = new_vault();
    let mut ctx = depositor(vault);
    ctx.player_token_account.owner = key(9);
    assert_eq!(deposit_for_monster(&mut ctx, 100_000_000, 1, Event::Entered), Err(ErrorCode::InvalidHoldingAccount));
    let mut ctx = depositor(vault);
    assert_eq!(deposit_for_monster(&mut ctx, 99_999_999, 1, Event::Entered), Err(ErrorCode::InsufficientDeposit));
    assert_eq!(deposit_for_monster(&mut ctx, 100_000_000, 1, Event::Failed(6)), Err(ErrorCode::InvocationFailed(6)));
    assert_eq!(ctx, depositor(vault));
    ctx.vault.total_deposits = u64::MAX;
    assert_eq!(deposit_for_monster(&mut ctx, 100_000_000, 1, Event::Applied), Err(ErrorCode::ArithmeticOverflow));
    assert_eq!(ctx.vault.total_deposits, u64::MAX);
    assert_eq!(ctx.deposit_records, Ledger::new());
}

#[test]
fn claim_monster_checks_owner_and_count() {
    let record = DepositRecord { player: key(PLAYER), amount: 100_000_000, timestamp: 1, claimed: false, tier: 1, bump: 254 };
    let mut claim = ClaimMonster { player: key(ADMIN), deposit_record: record, vault: new_vault() };
    assert_eq!(claim_monster(&mut claim), Err(ErrorCode::Unauthorized));
    claim.player = key(PLAYER);
    claim.vault.total_monsters_minted = u64::MAX;
    assert_eq!(claim_monster(&mut claim), Err(ErrorCode::ArithmeticOverflow));
    assert!(!claim.deposit_record.claimed);
    claim.vault.total_monsters_minted = u64::MAX - 1;
    assert_eq!(claim_monster(&mut claim), Ok(()));
    assert_eq!(claim.vault.total_monsters_minted, u64::MAX);
}

#[test]
fn deposit_whitelist_and_authority() {
    let vault = new_vault();
    let mut ctx = WhitelistToken {
        program_id: key(PROGRAM),
        whitelist: Ledger::new(),
        token_mint: key(50),
        vault,
        authority: key(PLAYER),
    };
    assert_eq!(whitelist_token(&mut ctx, key(50)), Err(ErrorCode::Unauthorized));
    ctx.authority = key(ADMIN);
    assert_eq!(whitelist_token(&mut ctx, key(50)), Ok(()));
    assert_eq!(whitelist_token(&mut ctx, key(50)), Ok(()));
    let (address, bump) =
        Pubkey::find_program_address(&seeds_of_key("whitelist", &key(50)), &key(PROGRAM)).unwrap();
    assert_eq!(ctx.whitelist.get(&address), Some(&TokenWhitelist { token_mint: key(50), enabled: true, bump }));

    let mut update = UpdateVault { vault, authority: key(PLAYER) };
    assert_eq!(update_vault(&mut update, Some(key(PLAYER))), Err(ErrorCode::Unauthorized));
    update.authority = key(ADMIN);
    assert_eq!(update_vault(&mut update, None), Ok(()));
    assert_eq!(update.vault, vault);
    assert_eq!(update_vault(&mut update, Some(key(PLAYER))), Ok(()));
    assert_eq!(update.vault.authority, key(PLAYER));
    assert_eq!(TreasureVault::LEN, 57);
    assert_eq!(DepositRecord::LEN, 59);
    assert_eq!(TokenWhitelist::LEN, 42);
}
