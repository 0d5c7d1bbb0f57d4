use jito_stake_pool::address::Address;
use jito_stake_pool::ids::stake_pool_program_id;
use jito_stake_pool::pda::{
    find_deposit_authority_program_address, find_stake_program_address,
    find_transient_stake_program_address, find_withdraw_authority_program_address,
    try_find_program_address, try_find_withdraw_authority_program_address,
};
use solana_program::pubkey::Pubkey;

fn address(fill: u8) -> Address {
    Address::new_from_array([fill; 32])
}

fn pubkey(a: &Address) -> Pubkey {
    Pubkey::new_from_array(a.to_bytes())
}

#[test]
fn withdraw_authority_matches_hand_derivation() {
    let program = stake_pool_program_id();
    let pool = address(7);
    let (found, bump) = find_withdraw_authority_program_address(&program, &pool);
    let expected =
        Pubkey::find_program_address(&[&pool.to_bytes(), b"withdraw"], &pubkey(&program));
    assert_eq!(found.to_bytes(), expected.0.to_bytes());
    assert_eq!(bump, expected.1);
}

#[test]
fn deposit_authority_matches_hand_derivation() {
    let program = stake_pool_program_id();
    let pool = address(9);
    let (found, bump) = find_deposit_authority_program_address(&program, &pool);
    let expected =
        Pubkey::find_program_address(&[&pool.to_bytes(), b"deposit"], &pubkey(&program));
    assert_eq!(found.to_bytes(), expected.0.to_bytes());
    assert_eq!(bump, expected.1);
}

#[test]
fn stake_address_matches_pool_crate() {
    let program = stake_pool_program_id();
    let pool = address(3);
    let vote = address(4);
    let (found, bump) = find_stake_program_address(&program, &vote, &pool);
    let expected = spl_stake_pool::find_stake_program_address(
        &pubkey(&program),
        &pubkey(&vote),
        &pubkey(&pool),
        None,
    );
    assert_eq!(found.to_bytes(), expected.0.to_bytes());
    assert_eq!(bump, expected.1);
}

#[test]
fn transient_stake_address_matches_pool_crate() {
    let program = stake_pool_program_id();
    let pool = address(3);
    let vote = address(4);
    for seed in [0u64, 1, 258, u64::MAX] {
        let (found, bump) = find_transient_stake_program_address(&program, &vote, &pool, seed);
        let expected = spl_stake_pool::find_transient_stake_program_address(
            &pubkey(&program),
            &pubkey(&vote),
            &pubkey(&pool),
            seed,
        );
        assert_eq!(found.to_bytes(), expected.0.to_bytes());
        assert_eq!(bump, expected.1);
    }
}

#[test]
fn derivation_is_deterministic() {
    let program = stake_pool_program_id();
    let pool = address(200);
    let first = find_withdraw_authority_program_address(&program, &pool);
    let second = find_withdraw_authority_program_address(&program, &pool);
    assert_eq!(first.0.to_bytes(), second.0.to_bytes());
    assert_eq!(first.1, second.1);
    let third = try_find_withdraw_authority_program_address(&program, &pool).unwrap();
    assert_eq!(first.0.to_bytes(), third.0.to_bytes());
    assert_eq!(first.1, third.1);
}

#[test]
fn derived_address_differs_from_its_seed() {
    let program = stake_pool_program_id();
    let pool = address(1);
    let (found, _) = find_withdraw_authority_program_address(&program, &pool);
    assert_ne!(found.to_bytes(), pool.to_bytes());
    assert!(!pubkey(&found).is_on_curve());
}

#[test]
fn overlong_seed_derives_nothing() {
    let program = stake_pool_program_id();
    let seeds = vec![vec![0u8; 33]];
    assert!(try_find_program_address(&seeds, &program).is_none());
    let too_many = vec![vec![1u8]; 17];
    assert!(try_find_program_address(&too_many, &program).is_none());
}
