use jito_stake_pool::address::Address;
use jito_stake_pool::command::create_pool::{
    check_stake_pool_fees, command_create_pool, create_pool_transactions, validator_list_size,
    CreatePool, CreatePoolArgs, CreatePoolState, PoolAccounts, RentBalances, STAKE_POOL_LEN,
};
use jito_stake_pool::command::{Action, Event, Outcome};
use jito_stake_pool::config::JitoStakePoolCliConfig;
use jito_stake_pool::error::Error;
use jito_stake_pool::ids::{
    associated_token_program_id, stake_pool_program_id, stake_program_id, system_program_id,
    token_program_id,
};
use jito_stake_pool::instruction::Instruction;
use jito_stake_pool::state::Fee;
use jito_stake_pool::transaction::Submission;
use solana_program::pubkey::Pubkey;

fn address(fill: u8) -> Address {
    Address::new_from_array([fill; 32])
}

fn pubkey(a: &Address) -> Pubkey {
    Pubkey::new_from_array(a.to_bytes())
}

fn config() -> JitoStakePoolCliConfig {
    JitoStakePoolCliConfig {
        verbose: false,
        manager: address(10),
        staker: address(11),
        funding_authority: None,
        token_owner: address(12),
        fee_payer: address(13),
        dry_run: false,
        no_update: false,
    }
}

fn fee(numerator: u64, denominator: u64) -> Fee {
    Fee { denominator, numerator }
}

fn pool(deposit_authority: Option<Address>) -> CreatePool {
    CreatePool {
        deposit_authority,
        epoch_fee: fee(3, 100),
        withdrawal_fee: fee(1, 1000),
        deposit_fee: fee(0, 0),
        referral_fee: 50,
        max_validators: 1000,
        accounts: PoolAccounts {
            stake_pool: address(40),
            validator_list: address(5),
            mint: address(42),
            reserve: address(7),
        },
        unsafe_fees: false,
    }
}

fn balances() -> RentBalances {
    RentBalances {
        reserve_stake: 2_282_880,
        mint: 1_461_600,
        pool_fee_account: 2_039_280,
        stake_pool: 5_143_440,
        validator_list: 509_034_720,
    }
}

fn withdraw_authority() -> [u8; 32] {
    Pubkey::find_program_address(
        &[&[40u8; 32], b"withdraw"],
        &pubkey(&stake_pool_program_id()),
    )
    .0
    .to_bytes()
}

fn manager_fee_account() -> [u8; 32] {
    Pubkey::find_program_address(
        &[&[10u8; 32], &token_program_id().to_bytes(), &[42u8; 32]],
        &pubkey(&associated_token_program_id()),
    )
    .0
    .to_bytes()
}

fn shape(ix: &Instruction) -> Vec<([u8; 32], bool, bool)> {
    ix.accounts.iter().map(|m| (m.pubkey.to_bytes(), m.is_signer, m.is_writable)).collect()
}

fn same(ours: &Instruction, theirs: &solana_program::instruction::Instruction) {
    assert_eq!(ours.program_id.to_bytes(), theirs.program_id.to_bytes());
    assert_eq!(ours.data, theirs.data);
    assert_eq!(ours.accounts.len(), theirs.accounts.len());
    for (a, b) in ours.accounts.iter().zip(theirs.accounts.iter()) {
        assert_eq!(a.pubkey.to_bytes(), b.pubkey.to_bytes());
        assert_eq!(a.is_signer, b.is_signer);
        assert_eq!(a.is_writable, b.is_writable);
    }
}

#[test]
fn sizes_match_the_pool_crate() {
    assert_eq!(
        STAKE_POOL_LEN,
        solana_program::borsh1::get_packed_len::<spl_stake_pool::state::StakePool>() as u64
    );
    for max_validators in [0u32, 1, 2, 1000] {
        let list = spl_stake_pool::state::ValidatorList::new(max_validators);
        assert_eq!(
            validator_list_size(max_validators),
            solana_program::borsh1::get_instance_packed_len(&list).unwrap() as u64
        );
    }
    assert_eq!(validator_list_size(0), 9);
    assert_eq!(validator_list_size(1000), 73_009);
    assert_eq!(validator_list_size(u32::MAX), 313_532_612_544);
}

#[test]
fn fees_are_checked() {
    assert!(check_stake_pool_fees(&fee(3, 100), &fee(1, 1000), &fee(0, 0)).is_ok());
    assert!(check_stake_pool_fees(&fee(3, 100), &fee(0, 0), &fee(1, 1000)).is_ok());
    assert!(check_stake_pool_fees(&fee(1, 1), &fee(1, 1), &fee(1, 1)).is_ok());
    assert!(matches!(
        check_stake_pool_fees(&fee(0, 100), &fee(1, 1000), &fee(1, 1000)),
        Err(Error::EpochFeeZero)
    ));
    assert!(matches!(
        check_stake_pool_fees(&fee(3, 0), &fee(1, 1000), &fee(1, 1000)),
        Err(Error::EpochFeeZero)
    ));
    assert!(matches!(
        check_stake_pool_fees(&fee(0, 0), &fee(0, 0), &fee(0, 0)),
        Err(Error::EpochFeeZero)
    ));
    assert!(matches!(
        check_stake_pool_fees(&fee(3, 100), &fee(0, 1000), &fee(5, 0)),
        Err(Error::WithdrawalAndDepositFeeZero)
    ));
}

#[test]
fn arguments_default_to_zero() {
    let args = CreatePoolArgs {
        epoch_fee_numerator: 3,
        epoch_fee_denominator: 100,
        withdrawal_fee_numerator: None,
        withdrawal_fee_denominator: Some(7),
        deposit_fee_numerator: Some(1),
        deposit_fee_denominator: Some(1000),
        referral_fee: None,
        max_validators: 10,
        deposit_authority: None,
        pool_keypair: None,
        validator_list_keypair: None,
        mint_keypair: None,
        reserve_keypair: None,
        unsafe_fees: false,
    };
    assert_eq!(args.epoch_fee().numerator, 3);
    assert_eq!(args.epoch_fee().denominator, 100);
    assert_eq!(args.withdrawal_fee().numerator, 0);
    assert_eq!(args.withdrawal_fee().denominator, 7);
    assert_eq!(args.deposit_fee().numerator, 1);
    assert_eq!(args.deposit_fee().denominator, 1000);
    assert_eq!(args.referral_fee_or_zero(), 0);
}

#[test]
fn setup_transaction_creates_reserve_and_mint() {
    let config = config();
    let plan = create_pool_transactions(&config, &pool(None), &balances(), None).unwrap();
    assert_eq!(
        plan.total_rent_free_balances,
        2_282_881 + 1_461_600 + 2_039_280 + 5_143_440 + 509_034_720
    );
    let setup = &plan.setup;
    assert_eq!(setup.fee_payer.to_bytes(), [13u8; 32]);
    let signers: Vec<[u8; 32]> = setup.signers.iter().map(|a| a.to_bytes()).collect();
    assert_eq!(signers, vec![[7u8; 32], [13u8; 32], [42u8; 32]]);
    assert_eq!(setup.instructions.len(), 4);
    let authority = withdraw_authority();

    let create_reserve = &setup.instructions[0];
    assert_eq!(create_reserve.program_id.to_bytes(), system_program_id().to_bytes());
    assert_eq!(shape(create_reserve), vec![([13u8; 32], true, true), ([7u8; 32], true, true)]);
    let mut data = vec![0u8, 0, 0, 0];
    data.extend_from_slice(&2_282_881u64.to_le_bytes());
    data.extend_from_slice(&200u64.to_le_bytes());
    data.extend_from_slice(&stake_program_id().to_bytes());
    assert_eq!(create_reserve.data, data);

    let initialize_reserve = &setup.instructions[1];
    assert_eq!(initialize_reserve.program_id.to_bytes(), stake_program_id().to_bytes());
    assert_eq!(
        shape(initialize_reserve),
        vec![
            ([7u8; 32], false, true),
            (solana_program::sysvar::rent::id().to_bytes(), false, false),
        ]
    );
    let mut data = vec![0u8, 0, 0, 0];
    data.extend_from_slice(&authority);
    data.extend_from_slice(&authority);
    data.extend_from_slice(&[0u8; 48]);
    assert_eq!(initialize_reserve.data, data);

    let create_mint = &setup.instructions[2];
    assert_eq!(shape(create_mint), vec![([13u8; 32], true, true), ([42u8; 32], true, true)]);
    let mut data = vec![0u8, 0, 0, 0];
    data.extend_from_slice(&1_461_600u64.to_le_bytes());
    data.extend_from_slice(&82u64.to_le_bytes());
    data.extend_from_slice(&token_program_id().to_bytes());
    assert_eq!(create_mint.data, data);

    let initialize_mint = &setup.instructions[3];
    assert_eq!(initialize_mint.program_id.to_bytes(), token_program_id().to_bytes());
    assert_eq!(
        shape(initialize_mint),
        vec![
            ([42u8; 32], false, true),
            (solana_program::sysvar::rent::id().to_bytes(), false, false),
        ]
    );
    let mut data = vec![0u8, 9];
    data.extend_from_slice(&authority);
    data.push(0);
    assert_eq!(initialize_mint.data, data);
}

#[test]
fn setup_transaction_creates_a_missing_fee_account() {
    let config = config();
    let plan =
        create_pool_transactions(&config, &pool(None), &balances(), Some(2_039_280)).unwrap();
    assert_eq!(
        plan.total_rent_free_balances,
        2_282_881 + 1_461_600 + 2_039_280 + 5_143_440 + 509_034_720 + 2_039_280
    );
    assert_eq!(plan.setup.instructions.len(), 5);
    let create = &plan.setup.instructions[4];
    assert_eq!(create.program_id.to_bytes(), associated_token_program_id().to_bytes());
    assert_eq!(create.accounts[0].pubkey.to_bytes(), [13u8; 32]);
    assert_eq!(create.accounts[1].pubkey.to_bytes(), manager_fee_account());
    assert_eq!(create.accounts[2].pubkey.to_bytes(), [10u8; 32]);
    assert_eq!(create.accounts[3].pubkey.to_bytes(), [42u8; 32]);
}

#[test]
fn initialize_transaction_creates_and_initialises_the_pool() {
    let config = config();
    let plan = create_pool_transactions(&config, &pool(None), &balances(), None).unwrap();
    let initialize = &plan.initialize;
    let signers: Vec<[u8; 32]> = initialize.signers.iter().map(|a| a.to_bytes()).collect();
    assert_eq!(signers, vec![[5u8; 32], [10u8; 32], [13u8; 32], [40u8; 32]]);
    assert_eq!(initialize.instructions.len(), 3);

    let create_list = &initialize.instructions[0];
    assert_eq!(shape(create_list), vec![([13u8; 32], true, true), ([5u8; 32], true, true)]);
    let mut data = vec![0u8, 0, 0, 0];
    data.extend_from_slice(&509_034_720u64.to_le_bytes());
    data.extend_from_slice(&73_009u64.to_le_bytes());
    data.extend_from_slice(&stake_pool_program_id().to_bytes());
    assert_eq!(create_list.data, data);

    let create_pool = &initialize.instructions[1];
    assert_eq!(shape(create_pool), vec![([13u8; 32], true, true), ([40u8; 32], true, true)]);
    let mut data = vec![0u8, 0, 0, 0];
    data.extend_from_slice(&5_143_440u64.to_le_bytes());
    data.extend_from_slice(&611u64.to_le_bytes());
    data.extend_from_slice(&stake_pool_program_id().to_bytes());
    assert_eq!(create_pool.data, data);

    let ix = &initialize.instructions[2];
    assert_eq!(ix.program_id.to_bytes(), stake_pool_program_id().to_bytes());
    assert_eq!(
        shape(ix),
        vec![
            ([40u8; 32], false, true),
            ([10u8; 32], true, false),
            ([11u8; 32], false, false),
            (withdraw_authority(), false, false),
            ([5u8; 32], false, true),
            ([7u8; 32], false, false),
            ([42u8; 32], false, true),
            (manager_fee_account(), false, true),
            (token_program_id().to_bytes(), false, false),
        ]
    );
    let mut data = vec![0u8];
    data.extend_from_slice(&100u64.to_le_bytes());
    data.extend_from_slice(&3u64.to_le_bytes());
    data.extend_from_slice(&1000u64.to_le_bytes());
    data.extend_from_slice(&1u64.to_le_bytes());
    data.extend_from_slice(&0u64.to_le_bytes());
    data.extend_from_slice(&0u64.to_le_bytes());
    data.push(50);
    data.extend_from_slice(&1000u32.to_le_bytes());
    assert_eq!(ix.data, data);

    let theirs = spl_stake_pool::instruction::initialize(
        &spl_stake_pool::id(),
        &pubkey(&address(40)),
        &pubkey(&address(10)),
        &pubkey(&address(11)),
        &Pubkey::new_from_array(withdraw_authority()),
        &pubkey(&address(5)),
        &pubkey(&address(7)),
        &pubkey(&address(42)),
        &Pubkey::new_from_array(manager_fee_account()),
        &spl_token::id(),
        None,
        spl_stake_pool::state::Fee { numerator: 3, denominator: 100 },
        spl_stake_pool::state::Fee { numerator: 1, denominator: 1000 },
        spl_stake_pool::state::Fee { numerator: 0, denominator: 0 },
        50,
        1000,
    );
    same(ix, &theirs);
}

#[test]
fn a_deposit_authority_signs_the_initialisation() {
    let config = config();
    let plan =
        create_pool_transactions(&config, &pool(Some(address(3))), &balances(), None).unwrap();
    let signers: Vec<[u8; 32]> = plan.initialize.signers.iter().map(|a| a.to_bytes()).collect();
    assert_eq!(signers, vec![[3u8; 32], [5u8; 32], [10u8; 32], [13u8; 32], [40u8; 32]]);
    let ix = &plan.initialize.instructions[2];
    assert_eq!(ix.accounts.len(), 10);
    assert_eq!(shape(ix)[9], ([3u8; 32], true, false));
}

#[test]
fn a_signer_named_twice_signs_once() {
    let mut config = config();
    config.manager = config.fee_payer;
    let plan =
        create_pool_transactions(&config, &pool(Some(address(13))), &balances(), None).unwrap();
    let signers: Vec<[u8; 32]> = plan.initialize.signers.iter().map(|a| a.to_bytes()).collect();
    assert_eq!(signers, vec![[5u8; 32], [13u8; 32], [40u8; 32]]);
}

#[test]
fn balances_that_do_not_fit_are_refused() {
    let config = config();
    let mut balances = balances();
    balances.reserve_stake = u64::MAX;
    let r = create_pool_transactions(&config, &pool(None), &balances, None);
    assert!(matches!(r, Err(Error::LamportsOverflow)));
    let mut balances = self::balances();
    balances.validator_list = u64::MAX - 10_927_201;
    assert!(create_pool_transactions(&config, &pool(None), &balances, None).is_ok());
    assert_eq!(balances.checked_total(None), Some(u64::MAX));
    assert_eq!(balances.checked_total(Some(0)), Some(u64::MAX));
    assert_eq!(balances.checked_total(Some(1)), None);
    let r = create_pool_transactions(&config, &pool(None), &balances, Some(1));
    assert!(matches!(r, Err(Error::LamportsOverflow)));
}

#[test]
fn create_pool_runs_from_fee_check_to_confirmation() {
    let config = config();
    let pool = pool(None);
    let (mut state, mut action) =
        command_create_pool(&config, &pool, CreatePoolState::Initial, Event::Start);
    let rents = [2_282_880u64, 1_461_600, 2_039_280, 5_143_440, 509_034_720];
    let sizes = [200u64, 82, 165, 611, 73_009];
    for (rent, size) in rents.iter().zip(sizes.iter()) {
        match action {
            Action::FetchMinimumBalance(asked) => assert_eq!(asked, *size),
            other => panic!("unexpected {:?}", other),
        }
        let next = command_create_pool(&config, &pool, state, Event::MinimumBalance(*rent));
        state = next.0;
        action = next.1;
    }
    match action {
        Action::ProbeAccount(a) => assert_eq!(a.to_bytes(), manager_fee_account()),
        other => panic!("unexpected {:?}", other),
    }
    let (state, action) = command_create_pool(&config, &pool, state, Event::AccountUnavailable);
    assert!(matches!(action, Action::FetchMinimumBalance(165)));
    let (state, action) =
        command_create_pool(&config, &pool, state, Event::MinimumBalance(2_039_280));
    assert!(matches!(action, Action::FetchSetupFee));
    match &state {
        CreatePoolState::AwaitingSetupFee { plan } => assert_eq!(plan.setup.instructions.len(), 5),
        other => panic!("unexpected {:?}", other),
    }
    let (state, action) = command_create_pool(&config, &pool, state, Event::Fee(15_000));
    assert!(matches!(action, Action::FetchInitializeFee));
    let (state, action) = command_create_pool(&config, &pool, state, Event::Fee(20_000));
    match action {
        Action::FetchBalance(a) => assert_eq!(a.to_bytes(), [13u8; 32]),
        other => panic!("unexpected {:?}", other),
    }
    let required = 2_282_881 + 1_461_600 + 2_039_280 + 5_143_440 + 509_034_720 + 2_039_280 + 35_000;
    match &state {
        CreatePoolState::AwaitingBalance { required_balance, .. } => {
            assert_eq!(*required_balance, required)
        }
        other => panic!("unexpected {:?}", other),
    }
    let (state, action) = command_create_pool(&config, &pool, state, Event::Balance(required));
    match action {
        Action::Submit(Submission::SendAndConfirm(transaction)) => {
            assert_eq!(transaction.instructions.len(), 5)
        }
        other => panic!("unexpected {:?}", other),
    }
    let (state, action) = command_create_pool(&config, &pool, state, Event::Submitted);
    match action {
        Action::Submit(Submission::SendAndConfirm(transaction)) => {
            assert_eq!(transaction.instructions.len(), 3)
        }
        other => panic!("unexpected {:?}", other),
    }
    let (state, action) = command_create_pool(&config, &pool, state, Event::Submitted);
    assert!(matches!(state, CreatePoolState::Finished));
    assert!(matches!(action, Action::Done(Outcome::Submitted)));
}

#[test]
fn a_fee_payer_short_of_lamports_creates_nothing() {
    let config = config();
    let pool = pool(None);
    let plan = create_pool_transactions(&config, &pool, &balances(), None).unwrap();
    let state = CreatePoolState::AwaitingBalance { plan, required_balance: 1000 };
    let (state, action) = command_create_pool(&config, &pool, state, Event::Balance(999));
    assert!(matches!(state, CreatePoolState::Finished));
    match action {
        Action::Fail(Error::InsufficientFeePayerBalance { fee_payer, required, balance }) => {
            assert_eq!(fee_payer.to_bytes(), [13u8; 32]);
            assert_eq!(required, 1000);
            assert_eq!(balance, 999);
        }
        other => panic!("unexpected {:?}", other),
    }
}

#[test]
fn unsafe_fees_are_refused_unless_asked_for() {
    let config = config();
    let mut pool = pool(None);
    pool.epoch_fee = fee(0, 100);
    let (state, action) =
        command_create_pool(&config, &pool, CreatePoolState::Initial, Event::Start);
    assert!(matches!(state, CreatePoolState::Finished));
    assert!(matches!(action, Action::Fail(Error::EpochFeeZero)));
    pool.unsafe_fees = true;
    let (state, action) =
        command_create_pool(&config, &pool, CreatePoolState::Initial, Event::Start);
    assert!(matches!(state, CreatePoolState::AwaitingRent { .. }));
    assert!(matches!(action, Action::FetchMinimumBalance(200)));
}

fn fully_signed(transaction: &jito_stake_pool::transaction::Transaction) -> bool {
    transaction.instructions.iter().all(|ix| {
        ix.accounts.iter().filter(|m| m.is_signer).all(|m| {
            transaction.signers.iter().any(|s| s.to_bytes() == m.pubkey.to_bytes())
        })
    })
}

#[test]
fn both_transactions_of_a_new_pool_name_every_signer() {
    let config = config();
    for authority in [None, Some(address(3)), Some(address(13))] {
        for rent in [None, Some(5u64)] {
            let plan = create_pool_transactions(&config, &pool(authority), &balances(), rent).unwrap();
            assert!(fully_signed(&plan.setup));
            assert!(fully_signed(&plan.initialize));
        }
    }
}
