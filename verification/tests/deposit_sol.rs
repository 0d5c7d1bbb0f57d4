use jito_stake_pool::address::Address;
use jito_stake_pool::command::deposit_sol::{
    add_associated_token_account, command_deposit_sol, deposit_sol_transaction,
    sol_str_to_lamports, DepositSol, DepositSolState,
};
use jito_stake_pool::command::{Action, Event, Outcome};
use jito_stake_pool::config::JitoStakePoolCliConfig;
use jito_stake_pool::error::Error;
use jito_stake_pool::ids::{
    associated_token_program_id, stake_pool_program_id, system_program_id, token_program_id,
};
use jito_stake_pool::instruction::Instruction;
use jito_stake_pool::state::StakePool;
use jito_stake_pool::transaction::Submission;
use solana_program::program_pack::Pack;
use solana_program::pubkey::Pubkey;
use spl_stake_pool::state::{AccountType, StakePool as PoolAccount};

fn address(fill: u8) -> Address {
    Address::new_from_array([fill; 32])
}

fn pubkey(a: &Address) -> Pubkey {
    Pubkey::new_from_array(a.to_bytes())
}

fn config(funding_authority: Option<Address>) -> JitoStakePoolCliConfig {
    JitoStakePoolCliConfig {
        verbose: false,
        manager: address(10),
        staker: address(11),
        funding_authority,
        token_owner: address(12),
        fee_payer: address(13),
        dry_run: false,
        no_update: false,
    }
}

fn pool(sol_deposit_authority: Option<Address>) -> StakePool {
    StakePool {
        staker: address(11),
        validator_list: address(21),
        reserve_stake: address(22),
        pool_mint: address(23),
        manager_fee_account: address(24),
        sol_deposit_authority,
    }
}

fn deposit() -> DepositSol {
    DepositSol {
        stake_pool_address: address(40),
        from: None,
        user_sol_transfer: address(41),
        pool_token_receiver_account: None,
        referrer_token_account: None,
        amount: 1_500_000_000,
    }
}

fn pool_account_data(sol_deposit_authority: Option<Address>) -> Vec<u8> {
    let mut account = PoolAccount::default();
    account.account_type = AccountType::StakePool;
    account.staker = pubkey(&address(11));
    account.validator_list = pubkey(&address(21));
    account.reserve_stake = pubkey(&address(22));
    account.pool_mint = pubkey(&address(23));
    account.manager_fee_account = pubkey(&address(24));
    account.sol_deposit_authority = sol_deposit_authority.map(|a| pubkey(&a));
    borsh::to_vec(&account).unwrap()
}

fn token_account_data(mint: &Address) -> Vec<u8> {
    let account = spl_token::state::Account {
        mint: pubkey(mint),
        owner: pubkey(&address(12)),
        amount: 0,
        state: spl_token::state::AccountState::Initialized,
        ..spl_token::state::Account::default()
    };
    let mut data = vec![0u8; spl_token::state::Account::LEN];
    account.pack_into_slice(&mut data);
    data
}

fn associated(owner: &Address, mint: &Address) -> [u8; 32] {
    Pubkey::find_program_address(
        &[&owner.to_bytes(), &token_program_id().to_bytes(), &mint.to_bytes()],
        &pubkey(&associated_token_program_id()),
    )
    .0
    .to_bytes()
}

fn withdraw_authority(pool_address: &Address) -> [u8; 32] {
    Pubkey::find_program_address(
        &[&pool_address.to_bytes(), b"withdraw"],
        &pubkey(&stake_pool_program_id()),
    )
    .0
    .to_bytes()
}

fn shape(ix: &Instruction) -> Vec<([u8; 32], bool, bool)> {
    ix.accounts.iter().map(|m| (m.pubkey.to_bytes(), m.is_signer, m.is_writable)).collect()
}

#[test]
fn deposit_without_authority_and_with_a_token_account() {
    let config = config(None);
    let deposit = deposit();
    let transaction = deposit_sol_transaction(&config, &deposit, &pool(None), None).unwrap();
    assert_eq!(transaction.fee_payer.to_bytes(), [13u8; 32]);
    let signers: Vec<[u8; 32]> = transaction.signers.iter().map(|a| a.to_bytes()).collect();
    assert_eq!(signers, vec![[13u8; 32], [41u8; 32]]);
    assert_eq!(transaction.instructions.len(), 2);

    let transfer = &transaction.instructions[0];
    assert_eq!(transfer.program_id.to_bytes(), system_program_id().to_bytes());
    assert_eq!(shape(transfer), vec![([13u8; 32], true, true), ([41u8; 32], false, true)]);
    let mut data = vec![2u8, 0, 0, 0];
    data.extend_from_slice(&1_500_000_000u64.to_le_bytes());
    assert_eq!(transfer.data, data);

    let ix = &transaction.instructions[1];
    let receiver = associated(&address(12), &address(23));
    assert_eq!(ix.program_id.to_bytes(), stake_pool_program_id().to_bytes());
    assert_eq!(
        shape(ix),
        vec![
            ([40u8; 32], false, true),
            (withdraw_authority(&address(40)), false, false),
            ([22u8; 32], false, true),
            ([41u8; 32], true, true),
            (receiver, false, true),
            ([24u8; 32], false, true),
            (receiver, false, true),
            ([23u8; 32], false, true),
            (system_program_id().to_bytes(), false, false),
            (token_program_id().to_bytes(), false, false),
        ]
    );
    let mut data = vec![14u8];
    data.extend_from_slice(&1_500_000_000u64.to_le_bytes());
    assert_eq!(ix.data, data);
}

#[test]
fn deposit_creates_a_missing_token_account() {
    let config = config(None);
    let transaction =
        deposit_sol_transaction(&config, &deposit(), &pool(None), Some(2_039_280)).unwrap();
    assert_eq!(transaction.instructions.len(), 3);
    let create = &transaction.instructions[1];
    assert_eq!(create.program_id.to_bytes(), associated_token_program_id().to_bytes());
    assert_eq!(
        shape(create),
        vec![
            ([13u8; 32], true, true),
            (associated(&address(12), &address(23)), false, true),
            ([12u8; 32], false, false),
            ([23u8; 32], false, false),
            (system_program_id().to_bytes(), false, false),
            (token_program_id().to_bytes(), false, false),
        ]
    );
    assert_eq!(create.data, vec![0u8]);
    assert_eq!(transaction.instructions[2].data[0], 14);
}

#[test]
fn deposit_with_source_receiver_and_referrer() {
    let config = config(None);
    let mut deposit = deposit();
    deposit.from = Some(address(50));
    deposit.pool_token_receiver_account = Some(address(51));
    let transaction = deposit_sol_transaction(&config, &deposit, &pool(None), None).unwrap();
    let signers: Vec<[u8; 32]> = transaction.signers.iter().map(|a| a.to_bytes()).collect();
    assert_eq!(signers, vec![[13u8; 32], [41u8; 32], [50u8; 32]]);
    assert_eq!(transaction.instructions[0].accounts[0].pubkey.to_bytes(), [50u8; 32]);
    let ix = &transaction.instructions[1];
    assert_eq!(ix.accounts[4].pubkey.to_bytes(), [51u8; 32]);
    assert_eq!(ix.accounts[6].pubkey.to_bytes(), [51u8; 32]);

    deposit.referrer_token_account = Some(address(52));
    let transaction = deposit_sol_transaction(&config, &deposit, &pool(None), None).unwrap();
    let ix = &transaction.instructions[1];
    assert_eq!(ix.accounts[4].pubkey.to_bytes(), [51u8; 32]);
    assert_eq!(ix.accounts[6].pubkey.to_bytes(), [52u8; 32]);
}

#[test]
fn a_given_receiver_does_not_spare_the_token_account() {
    let config = config(None);
    let mut deposit = deposit();
    deposit.pool_token_receiver_account = Some(address(51));
    let transaction =
        deposit_sol_transaction(&config, &deposit, &pool(None), Some(7)).unwrap();
    assert_eq!(transaction.instructions.len(), 3);
    assert_eq!(
        transaction.instructions[1].program_id.to_bytes(),
        associated_token_program_id().to_bytes()
    );
    assert_eq!(transaction.instructions[2].accounts[4].pubkey.to_bytes(), [51u8; 32]);
}

#[test]
fn deposit_with_the_pools_authority_is_signed_by_it() {
    let authority = address(60);
    let config = config(Some(authority));
    let transaction =
        deposit_sol_transaction(&config, &deposit(), &pool(Some(authority)), None).unwrap();
    let signers: Vec<[u8; 32]> = transaction.signers.iter().map(|a| a.to_bytes()).collect();
    assert_eq!(signers, vec![[13u8; 32], [41u8; 32], [60u8; 32]]);
    let ix = &transaction.instructions[1];
    assert_eq!(ix.accounts.len(), 11);
    assert_eq!(shape(ix)[10], ([60u8; 32], true, false));
    assert_eq!(shape(ix)[3], ([41u8; 32], true, true));
    let mut data = vec![14u8];
    data.extend_from_slice(&1_500_000_000u64.to_le_bytes());
    assert_eq!(ix.data, data);
}

#[test]
fn an_authority_for_a_pool_without_one_is_refused() {
    let config = config(Some(address(60)));
    let r = deposit_sol_transaction(&config, &deposit(), &pool(None), None);
    assert!(matches!(r, Err(Error::NoSolDepositAuthority)));
}

#[test]
fn another_authority_than_the_pools_is_refused() {
    let config = config(Some(address(60)));
    let r = deposit_sol_transaction(&config, &deposit(), &pool(Some(address(61))), None);
    match r {
        Err(Error::InvalidDepositAuthority { expected, received }) => {
            assert_eq!(expected.to_bytes(), [61u8; 32]);
            assert_eq!(received.to_bytes(), [60u8; 32]);
        }
        other => panic!("unexpected {:?}", other),
    }
}

#[test]
fn add_associated_token_account_leaves_an_existing_account_alone() {
    let config = config(None);
    let mut instructions: Vec<Instruction> = Vec::new();
    let mut rent: u64 = 17;
    let account = add_associated_token_account(
        &config,
        &address(23),
        &address(12),
        None,
        &mut instructions,
        &mut rent,
    );
    assert_eq!(account.to_bytes(), associated(&address(12), &address(23)));
    assert!(instructions.is_empty());
    assert_eq!(rent, 17);
}

#[test]
fn add_associated_token_account_counts_the_rent_of_a_new_account() {
    let config = config(None);
    let mut instructions: Vec<Instruction> = Vec::new();
    let mut rent: u64 = 17;
    let account = add_associated_token_account(
        &config,
        &address(23),
        &address(12),
        Some(2_039_280),
        &mut instructions,
        &mut rent,
    );
    assert_eq!(account.to_bytes(), associated(&address(12), &address(23)));
    assert_eq!(instructions.len(), 1);
    assert_eq!(instructions[0].accounts[1].pubkey.to_bytes(), account.to_bytes());
    assert_eq!(rent, 2_039_297);
}

#[test]
fn deposit_runs_from_balance_to_confirmation() {
    let config = config(None);
    let deposit = deposit();
    let (state, action) =
        command_deposit_sol(&config, &deposit, DepositSolState::Initial, Event::Start);
    match action {
        Action::FetchBalance(a) => assert_eq!(a.to_bytes(), [13u8; 32]),
        other => panic!("unexpected {:?}", other),
    }
    let (state, action) =
        command_deposit_sol(&config, &deposit, state, Event::Balance(1_500_000_000));
    match action {
        Action::FetchAccount(a) => assert_eq!(a.to_bytes(), [40u8; 32]),
        other => panic!("unexpected {:?}", other),
    }
    let (state, action) = command_deposit_sol(
        &config,
        &deposit,
        state,
        Event::AccountData(pool_account_data(None)),
    );
    match action {
        Action::ProbeAccount(a) => {
            assert_eq!(a.to_bytes(), associated(&address(12), &address(23)))
        }
        other => panic!("unexpected {:?}", other),
    }
    let (state, action) = command_deposit_sol(&config, &deposit, state, Event::AccountUnavailable);
    match action {
        Action::FetchMinimumBalance(size) => assert_eq!(size, 165),
        other => panic!("unexpected {:?}", other),
    }
    let (state, action) =
        command_deposit_sol(&config, &deposit, state, Event::MinimumBalance(2_039_280));
    match action {
        Action::Submit(Submission::SendAndConfirm(transaction)) => {
            assert_eq!(transaction.instructions.len(), 3)
        }
        other => panic!("unexpected {:?}", other),
    }
    let (state, action) = command_deposit_sol(&config, &deposit, state, Event::Submitted);
    assert!(matches!(state, DepositSolState::Finished));
    assert!(matches!(action, Action::Done(Outcome::Submitted)));
}

#[test]
fn deposit_uses_an_existing_token_account() {
    let config = config(None);
    let deposit = deposit();
    let state = DepositSolState::AwaitingTokenAccount { stake_pool: pool(None) };
    let (state, action) = command_deposit_sol(
        &config,
        &deposit,
        state,
        Event::AccountData(token_account_data(&address(23))),
    );
    assert!(matches!(state, DepositSolState::AwaitingConfirmation));
    match action {
        Action::Submit(Submission::SendAndConfirm(transaction)) => {
            assert_eq!(transaction.instructions.len(), 2)
        }
        other => panic!("unexpected {:?}", other),
    }
}

#[test]
fn deposit_replaces_a_token_account_of_another_mint() {
    let config = config(None);
    let state = DepositSolState::AwaitingTokenAccount { stake_pool: pool(None) };
    let (state, action) = command_deposit_sol(
        &config,
        &deposit(),
        state,
        Event::AccountData(token_account_data(&address(99))),
    );
    assert!(matches!(state, DepositSolState::AwaitingRentExemption { .. }));
    assert!(matches!(action, Action::FetchMinimumBalance(165)));
}

#[test]
fn deposit_over_the_balance_is_refused() {
    let config = config(None);
    let (state, action) = command_deposit_sol(
        &config,
        &deposit(),
        DepositSolState::AwaitingBalance,
        Event::Balance(1_499_999_999),
    );
    assert!(matches!(state, DepositSolState::Finished));
    match action {
        Action::Fail(Error::NotEnoughSol { amount, balance }) => {
            assert_eq!(amount, 1_500_000_000);
            assert_eq!(balance, 1_499_999_999);
        }
        other => panic!("unexpected {:?}", other),
    }
}

#[test]
fn deposit_from_a_given_source_asks_for_its_balance() {
    let config = config(None);
    let mut deposit = deposit();
    deposit.from = Some(address(50));
    let (_, action) =
        command_deposit_sol(&config, &deposit, DepositSolState::Initial, Event::Start);
    match action {
        Action::FetchBalance(a) => assert_eq!(a.to_bytes(), [50u8; 32]),
        other => panic!("unexpected {:?}", other),
    }
}

#[test]
fn an_amount_of_sol_is_read_as_lamports() {
    assert_eq!(sol_str_to_lamports("1.5").unwrap(), 1_500_000_000);
    assert_eq!(sol_str_to_lamports("0").unwrap(), 0);
    assert_eq!(sol_str_to_lamports("0.000000001").unwrap(), 1);
    assert_eq!(sol_str_to_lamports("2").unwrap(), 2_000_000_000);
    assert_eq!(sol_str_to_lamports(".5").unwrap(), 500_000_000);
    assert_eq!(sol_str_to_lamports("1.0000000019").unwrap(), 1_000_000_001);
    assert_eq!(sol_str_to_lamports("18446744073.709551615").unwrap(), u64::MAX);
}

#[test]
fn text_that_spells_no_amount_is_refused() {
    assert!(matches!(sol_str_to_lamports("."), Err(Error::InvalidAmount)));
    assert!(matches!(sol_str_to_lamports("abc"), Err(Error::InvalidAmount)));
    assert!(matches!(sol_str_to_lamports("-1"), Err(Error::InvalidAmount)));
    assert!(matches!(sol_str_to_lamports("1e3"), Err(Error::InvalidAmount)));
    assert!(matches!(sol_str_to_lamports("18446744073.709551616"), Err(Error::InvalidAmount)));
    assert!(matches!(sol_str_to_lamports("1.\u{e9}\u{e9}\u{e9}\u{e9}\u{e9}"), Err(Error::InvalidAmount)));
    assert!(matches!(sol_str_to_lamports("NaN"), Err(Error::InvalidAmount)));
}

fn fully_signed(transaction: &jito_stake_pool::transaction::Transaction) -> bool {
    transaction.instructions.iter().all(|ix| {
        ix.accounts.iter().filter(|m| m.is_signer).all(|m| {
            transaction.signers.iter().any(|s| s.to_bytes() == m.pubkey.to_bytes())
        })
    })
}

#[test]
fn every_planned_deposit_names_every_signer() {
    let authority = address(60);
    for funding in [None, Some(authority)] {
        for from in [None, Some(address(50))] {
            for rent in [None, Some(5u64)] {
                let config = config(funding);
                let mut deposit = deposit();
                deposit.from = from;
                let transaction =
                    deposit_sol_transaction(&config, &deposit, &pool(funding), rent).unwrap();
                assert!(fully_signed(&transaction));
            }
        }
    }
}
