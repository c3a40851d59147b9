use treasure_game::error::ErrorCode;
use treasure_game::pubkey::{
    nonce_seed, seeds_of_key, seeds_of_record, seeds_of_signer, seeds_of_tag, tag_seed, Pubkey,
};

fn key(byte: u8) -> Pubkey {
    Pubkey::new_from_array([byte; 32])
}

fn outside(key: &Pubkey) -> anchor_lang::prelude::Pubkey {
    anchor_lang::prelude::Pubkey::new_from_array(key.to_bytes())
}

#[test]
fn pubkey_keeps_its_bytes() {
    let mut bytes = [0u8; 32];
    bytes[0] = 7;
    bytes[31] = 9;
    let made = Pubkey::new_from_array(bytes);
    assert_eq!(made.to_bytes(), bytes);
    assert_eq!(made.to_seed(), bytes.to_vec());
}

#[test]
fn pubkeys_are_equal_by_bytes() {
    let mut other = [3u8; 32];
    assert!(key(3) == Pubkey::new_from_array(other));
    assert!(key(3).same(&Pubkey::new_from_array(other)));
    other[31] = 4;
    assert!(key(3) != Pubkey::new_from_array(other));
    assert!(!key(3).same(&Pubkey::new_from_array(other)));
    other[31] = 3;
    other[0] = 0;
    assert!(key(3) != Pubkey::new_from_array(other));
}

#[test]
fn seeds_are_tag_owner_and_nonce() {
    assert_eq!(tag_seed("vault"), b"vault".to_vec());
    assert_eq!(nonce_seed(1), vec![1u8, 0, 0, 0, 0, 0, 0, 0]);
    assert_eq!(nonce_seed(0x0102030405060708), vec![8u8, 7, 6, 5, 4, 3, 2, 1]);
    assert_eq!(nonce_seed(-1), vec![255u8; 8]);
    assert_eq!(nonce_seed(-2), (-2i64).to_le_bytes().to_vec());
    assert_eq!(seeds_of_tag("config"), vec![b"config".to_vec()]);
    assert_eq!(seeds_of_key("whitelist", &key(5)), vec![b"whitelist".to_vec(), vec![5u8; 32]]);
    assert_eq!(seeds_of_signer("booty-state", 254), vec![b"booty-state".to_vec(), vec![254u8]]);
    assert_eq!(
        seeds_of_record("treasure", &key(2), 513),
        vec![b"treasure".to_vec(), vec![2u8; 32], vec![1u8, 2, 0, 0, 0, 0, 0, 0]]
    );
}

#[test]
fn derivation_agrees_with_the_runtime() {
    let program = key(11);
    let seeds = seeds_of_record("treasure", &key(2), 1);
    let (address, bump) = Pubkey::find_program_address(&seeds, &program).unwrap();
    let player = [2u8; 32];
    let nonce = 1i64.to_le_bytes();
    let (expected, expected_bump) = anchor_lang::prelude::Pubkey::find_program_address(
        &[b"treasure", &player, &nonce],
        &outside(&program),
    );
    assert_eq!(address.to_bytes(), expected.to_bytes());
    assert_eq!(bump, expected_bump);
    assert_ne!(address, program);
    let rebuilt = anchor_lang::prelude::Pubkey::create_program_address(
        &[b"treasure", &player, &nonce, &[bump]],
        &outside(&program),
    )
    .unwrap();
    assert_eq!(rebuilt.to_bytes(), address.to_bytes());
    assert!(!rebuilt.is_on_curve());
}

#[test]
fn derivation_is_deterministic_and_tells_inputs_apart() {
    let program = key(11);
    let first = Pubkey::find_program_address(&seeds_of_record("deposit", &key(2), 1), &program);
    let again = Pubkey::find_program_address(&seeds_of_record("deposit", &key(2), 1), &program);
    assert_eq!(first, again);
    let other_nonce = Pubkey::find_program_address(&seeds_of_record("deposit", &key(2), 2), &program);
    let other_owner = Pubkey::find_program_address(&seeds_of_record("deposit", &key(3), 1), &program);
    let other_tag = Pubkey::find_program_address(&seeds_of_record("search", &key(2), 1), &program);
    let other_program = Pubkey::find_program_address(&seeds_of_record("deposit", &key(2), 1), &key(12));
    assert_ne!(first.unwrap().0, other_nonce.unwrap().0);
    assert_ne!(first.unwrap().0, other_owner.unwrap().0);
    assert_ne!(first.unwrap().0, other_tag.unwrap().0);
    assert_ne!(first.unwrap().0, other_program.unwrap().0);
}

#[test]
fn derivation_is_exhausted_by_a_seed_that_is_too_long() {
    let seeds = vec![vec![0u8; 33]];
    assert_eq!(
        Pubkey::find_program_address(&seeds, &key(11)),
        Err(ErrorCode::AddressDerivationExhausted)
    );
}

#[test]
fn derivation_is_exhausted_by_too_many_seeds() {
    let seeds = vec![vec![1u8]; 16];
    assert_eq!(
        Pubkey::find_program_address(&seeds, &key(11)),
        Err(ErrorCode::AddressDerivationExhausted)
    );
    let fewer = vec![vec![1u8]; 15];
    assert!(Pubkey::find_program_address(&fewer, &key(11)).is_ok());
}
