use treasure_game::cpi::{Burn, Event, MintTo, TokenAccount};
use treasure_game::error::ErrorCode;
use treasure_game::game::{
    burn_booty_for_travel, initialize_booty_mint, mine_booty, BootyState, BurnBootyForTravel,
    InitializeBootyMint, MineBooty,
};
use treasure_game::pubkey::{seeds_of_tag, Pubkey};

fn key(byte: u8) -> Pubkey {
    Pubkey::new_from_array([byte; 32])
}

const PROGRAM: u8 = 100;
const MINT: u8 = 1;
const ADMIN: u8 = 2;
const PLAYER: u8 = 3;
const WALLET: u8 = 4;

fn set_up(max_supply: Option<u64>) -> BootyState {
    let mut ctx = InitializeBootyMint {
        program_id: key(PROGRAM),
        booty_mint: key(MINT),
        booty_state: None,
        authority: key(ADMIN),
    };
    assert_eq!(initialize_booty_mint(&mut ctx, 6, max_supply), Ok(()));
    ctx.booty_state.unwrap()
}

fn miner(booty_state: BootyState) -> MineBooty {
    MineBooty {
        program_id: key(PROGRAM),
        player: key(PLAYER),
        booty_mint: key(MINT),
        player_booty_account: key(WALLET),
        booty_state,
    }
}

fn burner(booty_state: BootyState) -> BurnBootyForTravel {
    BurnBootyForTravel {
        player: key(PLAYER),
        booty_mint: key(MINT),
        player_booty_account: TokenAccount { key: key(WALLET), owner: key(PLAYER) },
        booty_state,
    }
}

#[test]
fn initialize_booty_mint_starts_from_zero_once() {
    let state = set_up(Some(1_000_000_000_000));
    let (_, bump) = Pubkey::find_program_address(&seeds_of_tag("booty-state"), &key(PROGRAM)).unwrap();
    assert_eq!(
        state,
        BootyState {
            mint: key(MINT),
            authority: key(ADMIN),
            total_mined: 0,
            total_burned: 0,
            max_supply: Some(1_000_000_000_000),
            bump,
        }
    );
    let mut again = InitializeBootyMint {
        program_id: key(PROGRAM),
        booty_mint: key(MINT),
        booty_state: Some(state),
        authority: key(ADMIN),
    };
    assert_eq!(initialize_booty_mint(&mut again, 6, None), Err(ErrorCode::AlreadyInitialized));
    assert_eq!(again.booty_state, Some(state));
}

#[test]
fn booty_scenario_mint_refuse_burn() {
    let mut ctx = miner(set_up(Some(1_000_000_000_000)));
    let (address, bump) = Pubkey::find_program_address(&seeds_of_tag("booty-state"), &key(PROGRAM)).unwrap();
    assert_eq!(
        mine_booty(&mut ctx, 500_000_000_000, Event::Entered),
        Ok(Some(MintTo { mint: key(MINT), to: key(WALLET), authority: address, amount: 500_000_000_000 }))
    );
    assert_eq!(ctx.signer_seeds(), vec![b"booty-state".to_vec(), vec![bump]]);
    assert_eq!(mine_booty(&mut ctx, 500_000_000_000, Event::Applied), Ok(None));
    assert_eq!(ctx.booty_state.total_mined, 500_000_000_000);
    let before = ctx;
    assert_eq!(mine_booty(&mut ctx, 600_000_000_000, Event::Entered), Err(ErrorCode::MaxSupplyExceeded));
    assert_eq!(mine_booty(&mut ctx, 600_000_000_000, Event::Applied), Err(ErrorCode::MaxSupplyExceeded));
    assert_eq!(ctx, before);
    let mut burn = burner(ctx.booty_state);
    assert_eq!(
        burn_booty_for_travel(&mut burn, 200_000_000_000, Event::Entered),
        Ok(Some(Burn { mint: key(MINT), from: key(WALLET), authority: key(PLAYER), amount: 200_000_000_000 }))
    );
    assert_eq!(burn_booty_for_travel(&mut burn, 200_000_000_000, Event::Applied), Ok(None));
    assert_eq!(burn.booty_state.total_burned, 200_000_000_000);
    assert_eq!(burn.booty_state.net_supply(), Some(300_000_000_000));
}

#[test]
fn mine_booty_checks_mint_overflow_and_failure() {
    let state = set_up(None);
    let mut ctx = miner(state);
    ctx.booty_mint = key(77);
    assert_eq!(mine_booty(&mut ctx, 1, Event::Entered), Err(ErrorCode::InvalidMint));
    let mut ctx = miner(state);
    assert_eq!(mine_booty(&mut ctx, 1, Event::Failed(3)), Err(ErrorCode::InvocationFailed(3)));
    assert_eq!(ctx.booty_state, state);
    assert_eq!(mine_booty(&mut ctx, u64::MAX, Event::Applied), Ok(None));
    assert_eq!(mine_booty(&mut ctx, 1, Event::Applied), Err(ErrorCode::ArithmeticOverflow));
    assert_eq!(ctx.booty_state.total_mined, u64::MAX);
    let mut capped = miner(set_up(Some(u64::MAX)));
    assert_eq!(mine_booty(&mut capped, u64::MAX, Event::Applied), Ok(None));
    assert_eq!(mine_booty(&mut capped, 1, Event::Entered), Err(ErrorCode::ArithmeticOverflow));
}

#[test]
fn burn_booty_checks_mint_owner_overflow_and_failure() {
    let state = set_up(None);
    let mut ctx = burner(state);
    ctx.booty_mint = key(77);
    assert_eq!(burn_booty_for_travel(&mut ctx, 1, Event::Entered), Err(ErrorCode::InvalidMint));
    let mut ctx = burner(state);
    ctx.player_booty_account.owner = key(78);
    assert_eq!(burn_booty_for_travel(&mut ctx, 1, Event::Entered), Err(ErrorCode::InvalidHoldingAccount));
    let mut ctx = burner(state);
    assert_eq!(burn_booty_for_travel(&mut ctx, 1, Event::Failed(9)), Err(ErrorCode::InvocationFailed(9)));
    assert_eq!(ctx.booty_state, state);
    assert_eq!(burn_booty_for_travel(&mut ctx, u64::MAX, Event::Applied), Ok(None));
    assert_eq!(burn_booty_for_travel(&mut ctx, 1, Event::Applied), Err(ErrorCode::ArithmeticOverflow));
    assert_eq!(ctx.booty_state.net_supply(), None);
    assert_eq!(BootyState::LEN, 98);
}
