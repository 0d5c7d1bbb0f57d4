use jito_stake_pool::address::Address;
use jito_stake_pool::command::add_validator::{
    add_validator_to_pool, add_validator_to_pool_with_vote, command_vsa_add,
    try_add_validator_to_pool_with_vote, AddValidatorArgs, AddValidatorState,
};
use jito_stake_pool::command::{Action, Event, Outcome};
use jito_stake_pool::config::JitoStakePoolCliConfig;
use jito_stake_pool::error::Error;
use jito_stake_pool::ids::stake_pool_program_id;
use jito_stake_pool::instruction::Instruction;
use jito_stake_pool::state::StakePool;
use jito_stake_pool::transaction::Submission;
use solana_program::pubkey::Pubkey;
use spl_stake_pool::state::{
    AccountType, StakePool as PoolAccount, ValidatorList as ListAccount, ValidatorListHeader,
    ValidatorStakeInfo as ListEntry,
};

fn address(fill: u8) -> Address {
    Address::new_from_array([fill; 32])
}

fn pubkey(a: &Address) -> Pubkey {
    Pubkey::new_from_array(a.to_bytes())
}

fn config(dry_run: bool) -> JitoStakePoolCliConfig {
    JitoStakePoolCliConfig {
        verbose: false,
        manager: address(10),
        staker: address(11),
        funding_authority: None,
        token_owner: address(12),
        fee_payer: address(13),
        dry_run,
        no_update: false,
    }
}

fn pool() -> StakePool {
    StakePool {
        staker: address(11),
        validator_list: address(21),
        reserve_stake: address(22),
        pool_mint: address(23),
        manager_fee_account: address(24),
        sol_deposit_authority: None,
    }
}

fn pool_account_data() -> Vec<u8> {
    let mut account = PoolAccount::default();
    account.account_type = AccountType::StakePool;
    account.staker = pubkey(&address(11));
    account.validator_list = pubkey(&address(21));
    account.reserve_stake = pubkey(&address(22));
    account.pool_mint = pubkey(&address(23));
    account.manager_fee_account = pubkey(&address(24));
    borsh::to_vec(&account).unwrap()
}

fn list_account_data(votes: &[Address]) -> Vec<u8> {
    let mut validators = Vec::new();
    for (i, vote) in votes.iter().enumerate() {
        let mut entry = ListEntry::default();
        entry.vote_account_address = pubkey(vote);
        entry.transient_seed_suffix = (100 + i as u64).into();
        validators.push(entry);
    }
    let list = ListAccount {
        header: ValidatorListHeader {
            account_type: AccountType::ValidatorList,
            max_validators: 10,
        },
        validators,
    };
    borsh::to_vec(&list).unwrap()
}

fn flags(ix: &Instruction) -> Vec<(bool, bool)> {
    ix.accounts.iter().map(|m| (m.is_signer, m.is_writable)).collect()
}

#[test]
fn add_validator_instruction_lists_thirteen_accounts() {
    let ix = add_validator_to_pool(
        &address(1),
        &address(2),
        &address(3),
        &address(4),
        &address(5),
        &address(6),
        &address(7),
        &address(8),
    );
    assert_eq!(ix.program_id.to_bytes(), [1u8; 32]);
    assert_eq!(ix.data, vec![1u8]);
    assert_eq!(ix.accounts.len(), 13);
    for (i, fill) in (2u8..=8).enumerate() {
        assert_eq!(ix.accounts[i].pubkey.to_bytes(), [fill; 32]);
    }
    assert_eq!(
        flags(&ix),
        vec![
            (false, true),
            (true, false),
            (true, true),
            (false, false),
            (false, true),
            (false, true),
            (false, false),
            (false, false),
            (false, false),
            (false, false),
            (false, false),
            (false, false),
            (false, false),
        ]
    );
    assert_eq!(
        ix.accounts[7].pubkey.to_bytes(),
        solana_program::sysvar::rent::id().to_bytes()
    );
    assert_eq!(
        ix.accounts[8].pubkey.to_bytes(),
        solana_program::sysvar::clock::id().to_bytes()
    );
    assert_eq!(
        ix.accounts[9].pubkey.to_bytes(),
        solana_program::sysvar::stake_history::id().to_bytes()
    );
    assert_eq!(
        ix.accounts[11].pubkey.to_bytes(),
        solana_system_interface::program::id().to_bytes()
    );
    assert_eq!(
        ix.accounts[12].pubkey.to_bytes(),
        solana_stake_interface::program::id().to_bytes()
    );
}

#[test]
fn add_validator_with_vote_derives_two_accounts() {
    let program = stake_pool_program_id();
    let pool_address = address(40);
    let vote = address(41);
    let funder = address(42);
    let ix = add_validator_to_pool_with_vote(&program, &pool(), &pool_address, &funder, &vote);
    let withdraw = spl_stake_pool::find_withdraw_authority_program_address(
        &pubkey(&program),
        &pubkey(&pool_address),
    )
    .0;
    let stake = spl_stake_pool::find_stake_program_address(
        &pubkey(&program),
        &pubkey(&vote),
        &pubkey(&pool_address),
        None,
    )
    .0;
    assert_eq!(ix.accounts[0].pubkey.to_bytes(), pool_address.to_bytes());
    assert_eq!(ix.accounts[1].pubkey.to_bytes(), pool().staker.to_bytes());
    assert_eq!(ix.accounts[2].pubkey.to_bytes(), funder.to_bytes());
    assert_eq!(ix.accounts[3].pubkey.to_bytes(), withdraw.to_bytes());
    assert_eq!(ix.accounts[4].pubkey.to_bytes(), pool().validator_list.to_bytes());
    assert_eq!(ix.accounts[5].pubkey.to_bytes(), stake.to_bytes());
    assert_eq!(ix.accounts[6].pubkey.to_bytes(), vote.to_bytes());
    let tried =
        try_add_validator_to_pool_with_vote(&program, &pool(), &pool_address, &funder, &vote)
            .unwrap();
    assert_eq!(tried.data, ix.data);
    assert_eq!(tried.accounts.len(), ix.accounts.len());
    assert_eq!(tried.accounts[5].pubkey.to_bytes(), stake.to_bytes());
}

#[test]
fn add_validator_arguments_hold_their_text() {
    let args = AddValidatorArgs { pool: "pool".to_string(), vote_account: "vote".to_string() };
    assert_eq!(args.pool, "pool");
    assert_eq!(args.vote_account, "vote");
}

#[test]
fn adding_a_new_validator_submits_one_instruction() {
    let config = config(false);
    let pool_address = address(40);
    let vote = address(41);
    let (state, action) =
        command_vsa_add(&config, &pool_address, &vote, AddValidatorState::Initial, Event::Start);
    match (&state, &action) {
        (AddValidatorState::AwaitingStakePool { stake_account_address }, Action::FetchAccount(a)) => {
            assert_eq!(a.to_bytes(), pool_address.to_bytes());
            let stake = Pubkey::find_program_address(
                &[&vote.to_bytes(), &pool_address.to_bytes()],
                &spl_stake_pool::id(),
            )
            .0;
            assert_eq!(stake_account_address.to_bytes(), stake.to_bytes());
        }
        other => panic!("unexpected {:?}", other),
    }
    let (state, action) = command_vsa_add(
        &config,
        &pool_address,
        &vote,
        state,
        Event::AccountData(pool_account_data()),
    );
    match (&state, &action) {
        (AddValidatorState::AwaitingValidatorList { stake_pool }, Action::FetchAccount(a)) => {
            assert_eq!(a.to_bytes(), [21u8; 32]);
            assert_eq!(stake_pool.staker.to_bytes(), [11u8; 32]);
            assert_eq!(stake_pool.reserve_stake.to_bytes(), [22u8; 32]);
            assert_eq!(stake_pool.pool_mint.to_bytes(), [23u8; 32]);
            assert_eq!(stake_pool.manager_fee_account.to_bytes(), [24u8; 32]);
            assert!(stake_pool.sol_deposit_authority.is_none());
        }
        other => panic!("unexpected {:?}", other),
    }
    let (state, action) = command_vsa_add(
        &config,
        &pool_address,
        &vote,
        state,
        Event::AccountData(list_account_data(&[address(50), address(51)])),
    );
    assert!(matches!(state, AddValidatorState::AwaitingConfirmation));
    match action {
        Action::Submit(Submission::SendAndConfirm(transaction)) => {
            assert_eq!(transaction.fee_payer.to_bytes(), [13u8; 32]);
            assert_eq!(transaction.signers.len(), 2);
            assert_eq!(transaction.signers[0].to_bytes(), [13u8; 32]);
            assert_eq!(transaction.signers[1].to_bytes(), [11u8; 32]);
            assert_eq!(transaction.instructions.len(), 1);
            let ix = &transaction.instructions[0];
            assert_eq!(ix.program_id.to_bytes(), spl_stake_pool::id().to_bytes());
            assert_eq!(ix.data, vec![1u8]);
            assert_eq!(ix.accounts[2].pubkey.to_bytes(), [13u8; 32]);
            assert_eq!(ix.accounts[6].pubkey.to_bytes(), vote.to_bytes());
        }
        other => panic!("unexpected {:?}", other),
    }
    let (state, action) = command_vsa_add(&config, &pool_address, &vote, state, Event::Submitted);
    assert!(matches!(state, AddValidatorState::Finished));
    assert!(matches!(action, Action::Done(Outcome::Submitted)));
}

#[test]
fn adding_a_validator_twice_is_a_no_op() {
    let config = config(false);
    let pool_address = address(40);
    let vote = address(41);
    let state = AddValidatorState::AwaitingValidatorList { stake_pool: pool() };
    let (state, action) = command_vsa_add(
        &config,
        &pool_address,
        &vote,
        state,
        Event::AccountData(list_account_data(&[address(50), vote, address(51)])),
    );
    assert!(matches!(state, AddValidatorState::Finished));
    assert!(matches!(action, Action::Done(Outcome::AlreadySatisfied)));
}

#[test]
fn a_dry_run_simulates() {
    let config = config(true);
    let state = AddValidatorState::AwaitingValidatorList { stake_pool: pool() };
    let (_, action) = command_vsa_add(
        &config,
        &address(40),
        &address(41),
        state,
        Event::AccountData(list_account_data(&[])),
    );
    assert!(matches!(action, Action::Submit(Submission::Simulate(_))));
}

#[test]
fn bytes_that_are_no_stake_pool_fail_the_command() {
    let config = config(false);
    let pool_address = address(40);
    let state = AddValidatorState::AwaitingStakePool { stake_account_address: address(0) };
    let (state, action) = command_vsa_add(
        &config,
        &pool_address,
        &address(41),
        state,
        Event::AccountData(vec![1u8, 2, 3]),
    );
    assert!(matches!(state, AddValidatorState::Finished));
    match action {
        Action::Fail(Error::InvalidStakePool { address, reason }) => {
            assert_eq!(address.to_bytes(), pool_address.to_bytes());
            assert!(!reason.is_empty());
        }
        other => panic!("unexpected {:?}", other),
    }
}

#[test]
fn bytes_that_are_no_validator_list_fail_the_command() {
    let config = config(false);
    let state = AddValidatorState::AwaitingValidatorList { stake_pool: pool() };
    let (state, action) = command_vsa_add(
        &config,
        &address(40),
        &address(41),
        state,
        Event::AccountData(vec![9u8]),
    );
    assert!(matches!(state, AddValidatorState::Finished));
    match action {
        Action::Fail(Error::InvalidValidatorList { address, .. }) => {
            assert_eq!(address.to_bytes(), [21u8; 32]);
        }
        other => panic!("unexpected {:?}", other),
    }
}

#[test]
fn an_event_out_of_turn_ends_the_command() {
    let config = config(false);
    let (state, action) = command_vsa_add(
        &config,
        &address(40),
        &address(41),
        AddValidatorState::Initial,
        Event::Submitted,
    );
    assert!(matches!(state, AddValidatorState::Finished));
    assert!(matches!(action, Action::Unexpected));
    let (state, action) = command_vsa_add(
        &config,
        &address(40),
        &address(41),
        AddValidatorState::Finished,
        Event::Start,
    );
    assert!(matches!(state, AddValidatorState::Finished));
    assert!(matches!(action, Action::Unexpected));
}

fn fully_signed(transaction: &jito_stake_pool::transaction::Transaction) -> bool {
    transaction.instructions.iter().all(|ix| {
        ix.accounts.iter().filter(|m| m.is_signer).all(|m| {
            transaction.signers.iter().any(|s| s.to_bytes() == m.pubkey.to_bytes())
        })
    })
}

#[test]
fn the_add_validator_transaction_names_every_signer() {
    let config = config(false);
    let state = AddValidatorState::AwaitingValidatorList { stake_pool: pool() };
    let (_, action) = command_vsa_add(
        &config,
        &address(40),
        &address(41),
        state,
        Event::AccountData(list_account_data(&[])),
    );
    match action {
        Action::Submit(Submission::SendAndConfirm(transaction)) => {
            assert!(fully_signed(&transaction))
        }
        other => panic!("unexpected {:?}", other),
    }
}

#[test]
fn a_staker_other_than_the_pools_leaves_a_signature_open() {
    let mut config = config(false);
    config.staker = address(99);
    let state = AddValidatorState::AwaitingValidatorList { stake_pool: pool() };
    let (_, action) = command_vsa_add(
        &config,
        &address(40),
        &address(41),
        state,
        Event::AccountData(list_account_data(&[])),
    );
    match action {
        Action::Submit(Submission::SendAndConfirm(transaction)) => {
            assert!(!fully_signed(&transaction))
        }
        other => panic!("unexpected {:?}", other),
    }
}
