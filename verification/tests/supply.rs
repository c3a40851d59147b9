use treasure_game::booty::{
    burn_tokens, initialize, mine_tokens, update_authority, update_max_supply, BootyConfig,
    BurnTokens, Initialize, MineTokens, UpdateAuthority,
};
use treasure_game::cpi::{Burn, Event, MintTo, TokenAccount};
use treasure_game::error::ErrorCode;
use treasure_game::pubkey::{seeds_of_tag, Pubkey};
use treasure_game::supply::{check_cap, check_mint, credit, net_supply};

fn key(byte: u8) -> Pubkey {
    Pubkey::new_from_array([byte; 32])
}

const PROGRAM: u8 = 100;
const MINT: u8 = 1;
const ADMIN: u8 = 2;
const PLAYER: u8 = 3;
const WALLET: u8 = 4;

fn set_up(max_supply: Option<u64>) -> BootyConfig {
    let mut ctx = Initialize { program_id: key(PROGRAM), mint: key(MINT), config: None, authority: key(ADMIN) };
    assert_eq!(initialize(&mut ctx, 6, max_supply), Ok(()));
    ctx.config.unwrap()
}

fn miner(config: BootyConfig) -> MineTokens {
    MineTokens {
        program_id: key(PROGRAM),
        mint: key(MINT),
        config,
        player: key(PLAYER),
        player_token_account: key(WALLET),
        payer: key(PLAYER),
    }
}

fn burner(config: BootyConfig) -> BurnTokens {
    BurnTokens {
        mint: key(MINT),
        config,
        player: key(PLAYER),
        player_token_account: TokenAccount { key: key(WALLET), owner: key(PLAYER) },
    }
}

fn mint(config: &mut BootyConfig, amount: u64) -> Result<(), ErrorCode> {
    let mut ctx = miner(*config);
    let asked = mine_tokens(&mut ctx, amount, Event::Entered)?;
    assert!(asked.is_some());
    assert_eq!(ctx.config, *config);
    let settled = mine_tokens(&mut ctx, amount, Event::Applied)?;
    assert_eq!(settled, None);
    *config = ctx.config;
    Ok(())
}

fn burn(config: &mut BootyConfig, amount: u64) -> Result<(), ErrorCode> {
    let mut ctx = burner(*config);
    let asked = burn_tokens(&mut ctx, amount, Event::Entered)?;
    assert!(asked.is_some());
    let settled = burn_tokens(&mut ctx, amount, Event::Applied)?;
    assert_eq!(settled, None);
    *config = ctx.config;
    Ok(())
}

#[test]
fn initialize_starts_from_zero() {
    let config = set_up(Some(1_000_000_000_000));
    let (_, bump) = Pubkey::find_program_address(&seeds_of_tag("config"), &key(PROGRAM)).unwrap();
    assert_eq!(
        config,
        BootyConfig {
            mint: key(MINT),
            mint_authority: key(ADMIN),
            total_mined: 0,
            total_burned: 0,
            max_supply: Some(1_000_000_000_000),
            bump,
        }
    );
    assert_eq!(set_up(None).max_supply, None);
}

#[test]
fn initialize_refuses_a_second_set_up() {
    let config = set_up(None);
    let mut ctx = Initialize { program_id: key(PROGRAM), mint: key(9), config: Some(config), authority: key(8) };
    assert_eq!(initialize(&mut ctx, 9, Some(5)), Err(ErrorCode::AlreadyInitialized));
    assert_eq!(ctx.config, Some(config));
}

#[test]
fn supply_scenario_mint_refuse_burn() {
    let mut config = set_up(Some(1_000_000_000_000));
    assert_eq!(mint(&mut config, 500_000_000_000), Ok(()));
    assert_eq!(config.total_mined, 500_000_000_000);
    let before = config;
    assert_eq!(mint(&mut config, 600_000_000_000), Err(ErrorCode::MaxSupplyExceeded));
    assert_eq!(config, before);
    assert_eq!(burn(&mut config, 200_000_000_000), Ok(()));
    assert_eq!(config.total_burned, 200_000_000_000);
    assert_eq!(config.total_mined, 500_000_000_000);
    assert_eq!(config.net_supply(), Some(300_000_000_000));
}

#[test]
fn mine_tokens_asks_for_the_mint_under_the_states_address() {
    let config = set_up(Some(1_000));
    let mut ctx = miner(config);
    let (address, bump) = Pubkey::find_program_address(&seeds_of_tag("config"), &key(PROGRAM)).unwrap();
    assert_eq!(
        mine_tokens(&mut ctx, 400, Event::Entered),
        Ok(Some(MintTo { mint: key(MINT), to: key(WALLET), authority: address, amount: 400 }))
    );
    assert_eq!(ctx, miner(config));
    assert_eq!(ctx.signer_seeds(), vec![b"config".to_vec(), vec![bump]]);
    assert_eq!(config.bump, bump);
}

#[test]
fn mine_tokens_stays_within_the_cap() {
    let mut config = set_up(Some(1_000));
    assert_eq!(mint(&mut config, 1_000), Ok(()));
    assert_eq!(config.total_mined, 1_000);
    assert_eq!(mint(&mut config, 1), Err(ErrorCode::MaxSupplyExceeded));
    assert_eq!(mint(&mut config, 0), Ok(()));
    assert_eq!(config.total_mined, 1_000);
    let mut ctx = miner(config);
    assert_eq!(mine_tokens(&mut ctx, 1, Event::Applied), Err(ErrorCode::MaxSupplyExceeded));
    assert_eq!(ctx.config.total_mined, 1_000);
    for amount in [1u64, 5, 999, 1_000_000, u64::MAX - 1_000] {
        let mut ctx = miner(config);
        assert_eq!(mine_tokens(&mut ctx, amount, Event::Entered), Err(ErrorCode::MaxSupplyExceeded));
        assert_eq!(ctx.config, config);
    }
}

#[test]
fn mine_tokens_reports_overflow_under_a_cap() {
    let mut config = set_up(Some(u64::MAX));
    assert_eq!(mint(&mut config, u64::MAX - 1), Ok(()));
    let mut ctx = miner(config);
    assert_eq!(mine_tokens(&mut ctx, 2, Event::Entered), Err(ErrorCode::ArithmeticOverflow));
    assert_eq!(ctx.config, config);
    assert_eq!(mint(&mut config, 1), Ok(()));
    assert_eq!(config.total_mined, u64::MAX);
}

#[test]
fn mine_tokens_without_cap_overflows_only_when_applied() {
    let mut config = set_up(None);
    assert_eq!(mint(&mut config, u64::MAX), Ok(()));
    let mut ctx = miner(config);
    assert!(mine_tokens(&mut ctx, 1, Event::Entered).unwrap().is_some());
    assert_eq!(mine_tokens(&mut ctx, 1, Event::Applied), Err(ErrorCode::ArithmeticOverflow));
    assert_eq!(ctx.config, config);
}

#[test]
fn mine_tokens_refuses_another_mint() {
    let config = set_up(None);
    let mut ctx = miner(config);
    ctx.mint = key(77);
    assert_eq!(mine_tokens(&mut ctx, 1, Event::Entered), Err(ErrorCode::InvalidMint));
    assert_eq!(mine_tokens(&mut ctx, 1, Event::Applied), Err(ErrorCode::InvalidMint));
    assert_eq!(ctx.config, config);
}

#[test]
fn a_failed_invocation_changes_nothing() {
    let config = set_up(Some(10));
    let mut ctx = miner(config);
    assert_eq!(mine_tokens(&mut ctx, 5, Event::Failed(17)), Err(ErrorCode::InvocationFailed(17)));
    assert_eq!(ctx.config, config);
    let mut ctx = burner(config);
    assert_eq!(burn_tokens(&mut ctx, 5, Event::Failed(4)), Err(ErrorCode::InvocationFailed(4)));
    assert_eq!(ctx.config, config);
}

#[test]
fn burn_tokens_asks_the_player_to_sign() {
    let config = set_up(None);
    let mut ctx = burner(config);
    assert_eq!(
        burn_tokens(&mut ctx, 25, Event::Entered),
        Ok(Some(Burn { mint: key(MINT), from: key(WALLET), authority: key(PLAYER), amount: 25 }))
    );
    assert_eq!(ctx.config, config);
    assert_eq!(burn_tokens(&mut ctx, 25, Event::Applied), Ok(None));
    assert_eq!(ctx.config.total_burned, 25);
    assert_eq!(ctx.config.total_mined, 0);
}

#[test]
fn burn_tokens_checks_mint_owner_and_overflow() {
    let mut config = set_up(None);
    let mut ctx = burner(config);
    ctx.mint = key(77);
    assert_eq!(burn_tokens(&mut ctx, 1, Event::Entered), Err(ErrorCode::InvalidMint));
    let mut ctx = burner(config);
    ctx.player_token_account.owner = key(78);
    assert_eq!(burn_tokens(&mut ctx, 1, Event::Entered), Err(ErrorCode::InvalidHoldingAccount));
    assert_eq!(burn(&mut config, u64::MAX), Ok(()));
    let mut ctx = burner(config);
    assert_eq!(burn_tokens(&mut ctx, 1, Event::Applied), Err(ErrorCode::ArithmeticOverflow));
    assert_eq!(ctx.config.total_burned, u64::MAX);
}

#[test]
fn net_supply_is_minted_less_burned() {
    assert_eq!(net_supply(500, 200), Some(300));
    assert_eq!(net_supply(200, 200), Some(0));
    assert_eq!(net_supply(199, 200), None);
    let mut config = set_up(None);
    config.total_mined = 7;
    config.total_burned = 9;
    assert_eq!(config.net_supply(), None);
}

#[test]
fn update_authority_is_for_the_authority_alone() {
    let config = set_up(None);
    let mut ctx = UpdateAuthority { config, authority: key(PLAYER) };
    assert_eq!(update_authority(&mut ctx, key(PLAYER)), Err(ErrorCode::Unauthorized));
    assert_eq!(ctx.config, config);
    let mut ctx = UpdateAuthority { config, authority: key(ADMIN) };
    assert_eq!(update_authority(&mut ctx, key(PLAYER)), Ok(()));
    assert_eq!(ctx.config.mint_authority, key(PLAYER));
    assert_eq!(update_authority(&mut ctx, key(ADMIN)), Err(ErrorCode::Unauthorized));
    ctx.authority = key(PLAYER);
    assert_eq!(update_authority(&mut ctx, key(ADMIN)), Ok(()));
    assert_eq!(ctx.config, config);
}

#[test]
fn update_max_supply_never_lowers_a_cap() {
    let config = set_up(Some(1_000));
    let mut ctx = UpdateAuthority { config, authority: key(ADMIN) };
    assert_eq!(update_max_supply(&mut ctx, Some(999)), Err(ErrorCode::CannotDecreaseMaxSupply));
    assert_eq!(update_max_supply(&mut ctx, Some(0)), Err(ErrorCode::CannotDecreaseMaxSupply));
    assert_eq!(ctx.config, config);
    assert_eq!(update_max_supply(&mut ctx, Some(1_000)), Ok(()));
    assert_eq!(ctx.config.max_supply, Some(1_000));
    assert_eq!(update_max_supply(&mut ctx, Some(2_000)), Ok(()));
    assert_eq!(ctx.config.max_supply, Some(2_000));
    assert_eq!(update_max_supply(&mut ctx, None), Ok(()));
    assert_eq!(ctx.config.max_supply, None);
    assert_eq!(update_max_supply(&mut ctx, None), Ok(()));
    assert_eq!(update_max_supply(&mut ctx, Some(5)), Ok(()));
    assert_eq!(ctx.config.max_supply, Some(5));
}

#[test]
fn update_max_supply_is_for_the_authority_alone() {
    let config = set_up(Some(1_000));
    let mut ctx = UpdateAuthority { config, authority: key(PLAYER) };
    assert_eq!(update_max_supply(&mut ctx, None), Err(ErrorCode::Unauthorized));
    assert_eq!(update_max_supply(&mut ctx, Some(1)), Err(ErrorCode::Unauthorized));
    assert_eq!(ctx.config, config);
}

#[test]
fn supply_checks_on_plain_numbers() {
    assert_eq!(check_mint(10, Some(20), 10), Ok(()));
    assert_eq!(check_mint(10, Some(20), 11), Err(ErrorCode::MaxSupplyExceeded));
    assert_eq!(check_mint(10, Some(20), u64::MAX), Err(ErrorCode::ArithmeticOverflow));
    assert_eq!(check_mint(10, None, u64::MAX), Ok(()));
    assert_eq!(credit(10, 5), Ok(15));
    assert_eq!(credit(u64::MAX, 0), Ok(u64::MAX));
    assert_eq!(credit(u64::MAX, 1), Err(ErrorCode::ArithmeticOverflow));
    assert_eq!(check_cap(Some(5), Some(4)), Err(ErrorCode::CannotDecreaseMaxSupply));
    assert_eq!(check_cap(Some(5), Some(5)), Ok(()));
    assert_eq!(check_cap(Some(5), None), Ok(()));
    assert_eq!(check_cap(None, Some(0)), Ok(()));
    assert_eq!(check_cap(None, None), Ok(()));
}

#[test]
fn stored_state_takes_98_bytes() {
    assert_eq!(BootyConfig::LEN, 98);
}
