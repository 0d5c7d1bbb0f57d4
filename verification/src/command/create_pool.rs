//! Creating a stake pool.

use vstd::prelude::*;
use vstd::bytes::{spec_u32_to_le_bytes, spec_u64_to_le_bytes};
use solana_program::pubkey::Pubkey;
use spl_stake_pool::state::Fee as PoolFee;
use crate::address::Address;
use crate::command::{Action, Event, Outcome};
use crate::config::JitoStakePoolCliConfig;
use crate::error::Error;
use crate::ids::{
    stake_pool_program_bytes, stake_pool_program_id, stake_program_bytes, stake_program_id,
    token_program_bytes, token_program_id,
};
use crate::instruction::{
    instruction_views, readonly, writable, AccountMeta, Instruction, InstructionView,
};
use crate::pda::{
    derivable, derived_address, try_find_withdraw_authority_program_address,
    withdraw_authority_seeds,
};
use crate::programs::{
    associated_token_address, create_account_instruction,
    create_associated_token_account_instruction, get_token_account,
    has_associated_token_address, initialize_mint_instruction, is_token_account_of,
    stake_initialize, stake_initialize_instruction, system_create_account, token_initialize_mint,
    try_get_associated_token_address, NATIVE_MINT_DECIMALS, STAKE_STATE_LEN, TOKEN_ACCOUNT_LEN,
    TOKEN_MINT_LEN,
};
use crate::command::deposit_sol::add_associated_token_account;
use crate::state::Fee;
use crate::transaction::{
    address_views, check_fee_payer_balance, lemma_unique_signers_exist, send_transaction,
    unique_signers, unique_signers_of, Transaction, TransactionView,
};

verus! {

/// Arguments of the command.
#[derive(Clone, Debug)]
pub struct CreatePoolArgs {
    /// Epoch fee numerator, fee amount is numerator divided by denominator.
    pub epoch_fee_numerator: u64,
    /// Epoch fee denominator, fee amount is numerator divided by denominator.
    pub epoch_fee_denominator: u64,
    /// Withdrawal fee numerator, fee amount is numerator divided by denominator [default: 0]
    pub withdrawal_fee_numerator: Option<u64>,
    /// Withdrawal fee denominator, fee amount is numerator divided by denominator [default: 0]
    pub withdrawal_fee_denominator: Option<u64>,
    /// Deposit fee numerator, fee amount is numerator divided by denominator [default: 0]
    pub deposit_fee_numerator: Option<u64>,
    /// Deposit fee denominator, fee amount is numerator divided by denominator [default: 0]
    pub deposit_fee_denominator: Option<u64>,
    /// Referral fee percentage, maximum 100
    pub referral_fee: Option<u8>,
    /// Max number of validators included in the stake pool
    pub max_validators: u32,
    /// Deposit authority required to sign all deposits into the stake pool
    pub deposit_authority: Option<String>,
    /// Stake pool keypair [default: new keypair]
    pub pool_keypair: Option<String>,
    /// Validator list keypair [default: new keypair]
    pub validator_list_keypair: Option<String>,
    /// Stake pool mint keypair [default: new keypair]
    pub mint_keypair: Option<String>,
    /// Stake pool reserve keypair [default: new keypair]
    pub reserve_keypair: Option<String>,
    /// Bypass fee checks, allowing pool to be created with unsafe fees
    pub unsafe_fees: bool,
}

/// The value of an optional number that defaults to zero.
pub open spec fn or_zero(value: Option<u64>) -> u64 {
    match value {
        Some(v) => v,
        None => 0,
    }
}

impl CreatePoolArgs {
    /// The epoch fee that the arguments ask for.
    pub fn epoch_fee(&self) -> (r: Fee)
        ensures
            r.numerator == self.epoch_fee_numerator,
            r.denominator == self.epoch_fee_denominator,
    {
        Fee { numerator: self.epoch_fee_numerator, denominator: self.epoch_fee_denominator }
    }

    /// The withdrawal fee that the arguments ask for; a part left out is
    /// zero.
    pub fn withdrawal_fee(&self) -> (r: Fee)
        ensures
            r.numerator == or_zero(self.withdrawal_fee_numerator),
            r.denominator == or_zero(self.withdrawal_fee_denominator),
    {
        Fee {
            numerator: self.withdrawal_fee_numerator.unwrap_or(0),
            denominator: self.withdrawal_fee_denominator.unwrap_or(0),
        }
    }

    /// The deposit fee that the arguments ask for; a part left out is zero.
    pub fn deposit_fee(&self) -> (r: Fee)
        ensures
            r.numerator == or_zero(self.deposit_fee_numerator),
            r.denominator == or_zero(self.deposit_fee_denominator),
    {
        Fee {
            numerator: self.deposit_fee_numerator.unwrap_or(0),
            denominator: self.deposit_fee_denominator.unwrap_or(0),
        }
    }

    /// The referral fee that the arguments ask for, zero where left out.
    pub fn referral_fee_or_zero(&self) -> (r: u8)
        ensures
            r == match self.referral_fee {
                Some(v) => v,
                None => 0u8,
            },
    {
        self.referral_fee.unwrap_or(0)
    }
}

/// Checks the fees of a new pool: the epoch fee must not be zero, and the
/// withdrawal fee and the deposit fee must not both be zero.
pub fn check_stake_pool_fees(epoch_fee: &Fee, withdrawal_fee: &Fee, deposit_fee: &Fee) -> (r:
    Result<(), Error>)
    ensures
        r == if epoch_fee.is_zero() {
            Err::<(), Error>(Error::EpochFeeZero)
        } else if withdrawal_fee.is_zero() && deposit_fee.is_zero() {
            Err::<(), Error>(Error::WithdrawalAndDepositFeeZero)
        } else {
            Ok::<(), Error>(())
        },
{
    if epoch_fee.numerator == 0 || epoch_fee.denominator == 0 {
        return Err(Error::EpochFeeZero);
    }
    let is_withdrawal_fee_zero = withdrawal_fee.numerator == 0 || withdrawal_fee.denominator == 0;
    let is_deposit_fee_zero = deposit_fee.numerator == 0 || deposit_fee.denominator == 0;
    if is_withdrawal_fee_zero && is_deposit_fee_zero {
        return Err(Error::WithdrawalAndDepositFeeZero);
    }
    Ok(())
}

/// Size in bytes of a stake pool account.
pub const STAKE_POOL_LEN: u64 = 611;

/// Size in bytes of the validator list account of a pool with room for
/// `max_validators` validators: nine bytes, and seventy-three for each
/// validator.
pub open spec fn validator_list_len(max_validators: u32) -> int {
    9 + 73 * max_validators
}

/// Computes the size of the validator list account of a pool with room for
/// `max_validators` validators.
pub fn validator_list_size(max_validators: u32) -> (r: u64)
    ensures
        r == validator_list_len(max_validators),
{
    let count: u64 = max_validators as u64;
    9 + 73 * count
}

/// The bytes of a fee: the denominator, then the numerator, each as eight
/// little-endian bytes.
pub open spec fn fee_bytes(fee: Fee) -> Seq<u8> {
    spec_u64_to_le_bytes(fee.denominator) + spec_u64_to_le_bytes(fee.numerator)
}

/// The instruction that initialises a pool. The manager signs; where the
/// pool gets a deposit authority, it stands last and signs too. The data is
/// the tag 0, the three fees, the referral fee and the number of validators
/// as four little-endian bytes.
pub open spec fn initialize_instruction(
    program_id: Seq<u8>,
    stake_pool: Seq<u8>,
    manager: Seq<u8>,
    staker: Seq<u8>,
    stake_pool_withdraw_authority: Seq<u8>,
    validator_list: Seq<u8>,
    reserve_stake: Seq<u8>,
    pool_mint: Seq<u8>,
    manager_pool_account: Seq<u8>,
    token_program_id: Seq<u8>,
    deposit_authority: Option<Seq<u8>>,
    fee: Fee,
    withdrawal_fee: Fee,
    deposit_fee: Fee,
    referral_fee: u8,
    max_validators: u32,
) -> InstructionView {
    let common = seq![
        writable(stake_pool, false),
        readonly(manager, true),
        readonly(staker, false),
        readonly(stake_pool_withdraw_authority, false),
        writable(validator_list, false),
        readonly(reserve_stake, false),
        writable(pool_mint, false),
        writable(manager_pool_account, false),
        readonly(token_program_id, false),
    ];
    InstructionView {
        program_id,
        accounts: match deposit_authority {
            Some(authority) => common.push(readonly(authority, true)),
            None => common,
        },
        data: seq![0u8] + fee_bytes(fee) + fee_bytes(withdrawal_fee) + fee_bytes(deposit_fee)
            + seq![referral_fee] + spec_u32_to_le_bytes(max_validators),
    }
}

/// Calls `spl_stake_pool::instruction::initialize`.
///
/// Trusted: the instruction is `initialize_instruction`, as the function's
/// source lists the nine or ten accounts and `borsh` writes the `Initialize`
/// variant, the first of the program's instructions.
#[verifier::external_body]
pub(crate) fn pool_initialize(
    program_id: &Address,
    stake_pool: &Address,
    manager: &Address,
    staker: &Address,
    stake_pool_withdraw_authority: &Address,
    validator_list: &Address,
    reserve_stake: &Address,
    pool_mint: &Address,
    manager_pool_account: &Address,
    token_program_id: &Address,
    deposit_authority: Option<&Address>,
    fee: &Fee,
    withdrawal_fee: &Fee,
    deposit_fee: &Fee,
    referral_fee: u8,
    max_validators: u32,
) -> (r: Instruction)
    ensures
        r@ == initialize_instruction(
            program_id@,
            stake_pool@,
            manager@,
            staker@,
            stake_pool_withdraw_authority@,
            validator_list@,
            reserve_stake@,
            pool_mint@,
            manager_pool_account@,
            token_program_id@,
            match deposit_authority {
                Some(authority) => Some(authority@),
                None => None,
            },
            *fee,
            *withdrawal_fee,
            *deposit_fee,
            referral_fee,
            max_validators,
        ),
{
    let key = |a: &Address| Pubkey::new_from_array(a.bytes);
    let rate = |f: &Fee| PoolFee { denominator: f.denominator, numerator: f.numerator };
    let made = spl_stake_pool::instruction::initialize(
        &key(program_id), &key(stake_pool), &key(manager), &key(staker),
        &key(stake_pool_withdraw_authority), &key(validator_list), &key(reserve_stake),
        &key(pool_mint), &key(manager_pool_account), &key(token_program_id),
        deposit_authority.map(key), rate(fee), rate(withdrawal_fee), rate(deposit_fee),
        referral_fee, max_validators,
    );
    Instruction::from_parts(made.program_id.to_bytes(), made.accounts.iter().map(
        |m| AccountMeta::from_parts(m.pubkey.to_bytes(), m.is_signer, m.is_writable),
    ).collect(), made.data)
}

/// The addresses of a new pool's accounts.
#[derive(Clone, Copy, Debug)]
pub struct PoolAccounts {
    /// The stake pool account.
    pub stake_pool: Address,
    /// The validator list account.
    pub validator_list: Address,
    /// The mint of the pool's token.
    pub mint: Address,
    /// The reserve stake account.
    pub reserve: Address,
}

/// What a pool is created with.
#[derive(Clone, Copy, Debug)]
pub struct CreatePool {
    /// Where set, the authority that must sign all deposits.
    pub deposit_authority: Option<Address>,
    /// Fee taken from the rewards of each epoch.
    pub epoch_fee: Fee,
    /// Fee taken from withdrawals.
    pub withdrawal_fee: Fee,
    /// Fee taken from deposits.
    pub deposit_fee: Fee,
    /// Share of the deposit fee that goes to the referrer, in percent.
    pub referral_fee: u8,
    /// Number of validators the pool has room for.
    pub max_validators: u32,
    /// The accounts to create.
    pub accounts: PoolAccounts,
    /// Whether the fee check is bypassed.
    pub unsafe_fees: bool,
}

/// What it costs to exempt each of a new pool's accounts from rent.
#[derive(Clone, Copy, Debug)]
pub struct RentBalances {
    /// For a stake account.
    pub reserve_stake: u64,
    /// For a token mint.
    pub mint: u64,
    /// For a token account.
    pub pool_fee_account: u64,
    /// For the stake pool account.
    pub stake_pool: u64,
    /// For the validator list account.
    pub validator_list: u64,
}

impl RentBalances {
    /// The lamports that the accounts take: the reserve takes one more
    /// than its exemption. `fee_account_rent` is what the manager's fee
    /// account takes where it has to be created.
    pub open spec fn total(self, fee_account_rent: Option<u64>) -> int {
        self.reserve_stake + 1 + self.mint + self.pool_fee_account + self.stake_pool
            + self.validator_list + match fee_account_rent {
            Some(lamports) => lamports as int,
            None => 0,
        }
    }

    /// Computes `total`, or `None` where it does not fit.
    pub fn checked_total(&self, fee_account_rent: Option<u64>) -> (r: Option<u64>)
        ensures
            r is Some == (self.total(fee_account_rent) <= u64::MAX),
            r matches Some(total) ==> total == self.total(fee_account_rent),
    {
        let rent: u64 = match fee_account_rent {
            Some(lamports) => lamports,
            None => 0,
        };
        let sum = self.reserve_stake.checked_add(1)?;
        let sum = sum.checked_add(self.mint)?;
        let sum = sum.checked_add(self.pool_fee_account)?;
        let sum = sum.checked_add(self.stake_pool)?;
        let sum = sum.checked_add(self.validator_list)?;
        sum.checked_add(rent)
    }
}

/// What the two transactions of a new pool hold, and what its accounts
/// take.
pub struct CreatePoolPlanView {
    pub setup: TransactionView,
    pub initialize: TransactionView,
    pub total_rent_free_balances: u64,
}

/// The two transactions that create a pool, and the lamports that its
/// accounts take.
#[derive(Debug)]
pub struct CreatePoolPlan {
    /// Creates the reserve, the mint and, where needed, the manager's fee
    /// account.
    pub setup: Transaction,
    /// Creates the validator list and the pool, and initialises the pool.
    pub initialize: Transaction,
    /// Lamports that the new accounts take.
    pub total_rent_free_balances: u64,
}

impl View for CreatePoolPlan {
    type V = CreatePoolPlanView;

    open spec fn view(&self) -> CreatePoolPlanView {
        CreatePoolPlanView {
            setup: self.setup@,
            initialize: self.initialize@,
            total_rent_free_balances: self.total_rent_free_balances,
        }
    }
}

impl CreatePool {
    /// The pool's withdraw authority.
    pub open spec fn withdraw_authority(self) -> Seq<u8> {
        derived_address(
            withdraw_authority_seeds(self.accounts.stake_pool@),
            stake_pool_program_bytes(),
        )
    }

    /// Whether the addresses that the plan needs can be derived.
    pub open spec fn derivable(self, config: JitoStakePoolCliConfig) -> bool {
        &&& derivable(
            withdraw_authority_seeds(self.accounts.stake_pool@),
            stake_pool_program_bytes(),
        )
        &&& has_associated_token_address(config.manager@, self.accounts.mint@)
    }

    /// The instructions of the first transaction: the reserve is created
    /// and initialised with the withdraw authority as its staker and
    /// withdrawer, the mint is created and initialised with the withdraw
    /// authority as its mint authority, and the manager's fee account is
    /// created where it does not exist.
    pub open spec fn setup_instructions(
        self,
        config: JitoStakePoolCliConfig,
        balances: RentBalances,
        create_fee_account: bool,
    ) -> Seq<InstructionView> {
        let base = seq![
            create_account_instruction(
                config.fee_payer@,
                self.accounts.reserve@,
                (balances.reserve_stake + 1) as u64,
                STAKE_STATE_LEN,
                stake_program_bytes(),
            ),
            stake_initialize_instruction(
                self.accounts.reserve@,
                self.withdraw_authority(),
                self.withdraw_authority(),
            ),
            create_account_instruction(
                config.fee_payer@,
                self.accounts.mint@,
                balances.mint,
                TOKEN_MINT_LEN,
                token_program_bytes(),
            ),
            initialize_mint_instruction(
                self.accounts.mint@,
                self.withdraw_authority(),
                NATIVE_MINT_DECIMALS,
            ),
        ];
        if create_fee_account {
            base.push(
                create_associated_token_account_instruction(
                    config.fee_payer@,
                    config.manager@,
                    self.accounts.mint@,
                ),
            )
        } else {
            base
        }
    }

    /// The instructions of the second transaction: the validator list and
    /// the pool are created, and the pool is initialised. The manager's fee
    /// account is the manager's associated token account of the mint.
    pub open spec fn initialize_instructions(
        self,
        config: JitoStakePoolCliConfig,
        balances: RentBalances,
    ) -> Seq<InstructionView> {
        seq![
            create_account_instruction(
                config.fee_payer@,
                self.accounts.validator_list@,
                balances.validator_list,
                validator_list_len(self.max_validators) as u64,
                stake_pool_program_bytes(),
            ),
            create_account_instruction(
                config.fee_payer@,
                self.accounts.stake_pool@,
                balances.stake_pool,
                STAKE_POOL_LEN,
                stake_pool_program_bytes(),
            ),
            initialize_instruction(
                stake_pool_program_bytes(),
                self.accounts.stake_pool@,
                config.manager@,
                config.staker@,
                self.withdraw_authority(),
                self.accounts.validator_list@,
                self.accounts.reserve@,
                self.accounts.mint@,
                associated_token_address(config.manager@, self.accounts.mint@),
                token_program_bytes(),
                match self.deposit_authority {
                    Some(authority) => Some(authority@),
                    None => None,
                },
                self.epoch_fee,
                self.withdrawal_fee,
                self.deposit_fee,
                self.referral_fee,
                self.max_validators,
            ),
        ]
    }

    /// Those who sign the first transaction, before they are ordered.
    pub open spec fn setup_signers(self, config: JitoStakePoolCliConfig) -> Seq<Seq<u8>> {
        seq![config.fee_payer@, self.accounts.mint@, self.accounts.reserve@]
    }

    /// Those who sign the second transaction, before they are ordered.
    pub open spec fn initialize_signers(self, config: JitoStakePoolCliConfig) -> Seq<Seq<u8>> {
        let base = seq![
            config.fee_payer@,
            self.accounts.stake_pool@,
            self.accounts.validator_list@,
            config.manager@,
        ];
        match self.deposit_authority {
            Some(authority) => base.push(authority@),
            None => base,
        }
    }

    /// What creating the pool comes to: its two transactions, each signed
    /// by its signers in the order of their addresses and each of them
    /// once, or why there are none.
    pub open spec fn plan(
        self,
        config: JitoStakePoolCliConfig,
        balances: RentBalances,
        fee_account_rent: Option<u64>,
    ) -> Result<CreatePoolPlanView, Error> {
        if balances.total(fee_account_rent) > u64::MAX {
            Err(Error::LamportsOverflow)
        } else if !self.derivable(config) {
            Err(Error::NoProgramAddress)
        } else {
            Ok(
                CreatePoolPlanView {
                    setup: TransactionView {
                        fee_payer: config.fee_payer@,
                        instructions: self.setup_instructions(
                            config,
                            balances,
                            fee_account_rent is Some,
                        ),
                        signers: unique_signers_of(self.setup_signers(config)),
                    },
                    initialize: TransactionView {
                        fee_payer: config.fee_payer@,
                        instructions: self.initialize_instructions(config, balances),
                        signers: unique_signers_of(self.initialize_signers(config)),
                    },
                    total_rent_free_balances: balances.total(fee_account_rent) as u64,
                },
            )
        }
    }
}

/// Assembles the two transactions that create a pool.
///
/// `fee_account_rent` is `None` where the manager's associated token
/// account of the mint exists, and otherwise the lamports that exempt a
/// token account from rent.
pub fn create_pool_transactions(
    config: &JitoStakePoolCliConfig,
    pool: &CreatePool,
    balances: &RentBalances,
    fee_account_rent: Option<u64>,
) -> (r: Result<CreatePoolPlan, Error>)
    ensures
        match r {
            Ok(plan) => pool.plan(*config, *balances, fee_account_rent) == Ok::<
                CreatePoolPlanView,
                Error,
            >(plan@),
            Err(e) => pool.plan(*config, *balances, fee_account_rent) == Err::<
                CreatePoolPlanView,
                Error,
            >(e),
        },
{
    if balances.checked_total(fee_account_rent).is_none() {
        return Err(Error::LamportsOverflow);
    }
    let reserve_stake_balance = balances.reserve_stake + 1;
    let mut total_rent_free_balances = match balances.checked_total(None) {
        Some(base) => base,
        None => {
            return Err(Error::LamportsOverflow);
        },
    };
    let withdraw_authority = match try_find_withdraw_authority_program_address(
        &stake_pool_program_id(),
        &pool.accounts.stake_pool,
    ) {
        Some(found) => found.0,
        None => {
            return Err(Error::NoProgramAddress);
        },
    };
    if try_get_associated_token_address(&config.manager, &pool.accounts.mint).is_none() {
        return Err(Error::NoProgramAddress);
    }
    let initialize_mint = match token_initialize_mint(
        &pool.accounts.mint,
        &withdraw_authority,
        NATIVE_MINT_DECIMALS,
    ) {
        Ok(instruction) => instruction,
        Err(_) => vstd::pervasive::unreached(),
    };
    let mut instructions = vec![
        system_create_account(
            &config.fee_payer,
            &pool.accounts.reserve,
            reserve_stake_balance,
            STAKE_STATE_LEN,
            &stake_program_id(),
        ),
        stake_initialize(&pool.accounts.reserve, &withdraw_authority, &withdraw_authority),
        system_create_account(
            &config.fee_payer,
            &pool.accounts.mint,
            balances.mint,
            TOKEN_MINT_LEN,
            &token_program_id(),
        ),
        initialize_mint,
    ];
    let ghost base = pool.setup_instructions(*config, *balances, false);
    assert(instruction_views(instructions@) =~= base);
    let pool_fee_account = add_associated_token_account(
        config,
        &pool.accounts.mint,
        &config.manager,
        fee_account_rent,
        &mut instructions,
        &mut total_rent_free_balances,
    );
    let initialize_instructions = vec![
        system_create_account(
            &config.fee_payer,
            &pool.accounts.validator_list,
            balances.validator_list,
            validator_list_size(pool.max_validators),
            &stake_pool_program_id(),
        ),
        system_create_account(
            &config.fee_payer,
            &pool.accounts.stake_pool,
            balances.stake_pool,
            STAKE_POOL_LEN,
            &stake_pool_program_id(),
        ),
        pool_initialize(
            &stake_pool_program_id(),
            &pool.accounts.stake_pool,
            &config.manager,
            &config.staker,
            &withdraw_authority,
            &pool.accounts.validator_list,
            &pool.accounts.reserve,
            &pool.accounts.mint,
            &pool_fee_account,
            &token_program_id(),
            pool.deposit_authority.as_ref(),
            &pool.epoch_fee,
            &pool.withdrawal_fee,
            &pool.deposit_fee,
            pool.referral_fee,
            pool.max_validators,
        ),
    ];
    let mut setup_signers = vec![config.fee_payer, pool.accounts.mint, pool.accounts.reserve];
    let mut initialize_signers = vec![
        config.fee_payer,
        pool.accounts.stake_pool,
        pool.accounts.validator_list,
        config.manager,
    ];
    if let Some(deposit_authority) = pool.deposit_authority {
        initialize_signers.push(deposit_authority);
    }
    proof {
        assert(address_views(setup_signers@) =~= pool.setup_signers(*config));
        assert(address_views(initialize_signers@) =~= pool.initialize_signers(*config));
        assert(instruction_views(instructions@) =~= pool.setup_instructions(
            *config,
            *balances,
            fee_account_rent is Some,
        ));
        assert(instruction_views(initialize_instructions@) =~= pool.initialize_instructions(
            *config,
            *balances,
        ));
    }
    let setup = Transaction {
        fee_payer: config.fee_payer,
        instructions,
        signers: unique_signers(&setup_signers),
    };
    let initialize = Transaction {
        fee_payer: config.fee_payer,
        instructions: initialize_instructions,
        signers: unique_signers(&initialize_signers),
    };
    Ok(CreatePoolPlan { setup, initialize, total_rent_free_balances })
}

/// Where the command stands.
#[derive(Debug)]
pub enum CreatePoolState {
    /// Nothing has been done.
    Initial,
    /// The rent exemptions of the new accounts are being asked for, one
    /// after the other; `collected` holds those that are known.
    AwaitingRent { collected: Vec<u64> },
    /// The manager's associated token account has been asked for.
    AwaitingFeeAccount { balances: RentBalances },
    /// The rent exemption of a token account has been asked for: the
    /// manager's fee account has to be created.
    AwaitingFeeAccountRent { balances: RentBalances },
    /// The fee of the first transaction has been asked for.
    AwaitingSetupFee { plan: CreatePoolPlan },
    /// The fee of the second transaction has been asked for.
    AwaitingInitializeFee { plan: CreatePoolPlan, setup_fee: u64 },
    /// The fee payer's balance has been asked for.
    AwaitingBalance { plan: CreatePoolPlan, required_balance: u64 },
    /// The first transaction has been handed out.
    AwaitingSetupConfirmation { initialize: Transaction },
    /// The second transaction has been handed out.
    AwaitingInitializeConfirmation,
    /// The command is over.
    Finished,
}

/// Number of accounts whose rent exemption the command asks for.
pub const RENT_QUERIES: usize = 5;

impl CreatePool {
    /// The size of the account whose rent exemption is asked for in place
    /// `k`: the reserve, the mint, the fee account, the pool, the validator
    /// list.
    pub open spec fn rent_size(self, k: int) -> u64 {
        if k == 0 {
            STAKE_STATE_LEN
        } else if k == 1 {
            TOKEN_MINT_LEN
        } else if k == 2 {
            TOKEN_ACCOUNT_LEN
        } else if k == 3 {
            STAKE_POOL_LEN
        } else {
            validator_list_len(self.max_validators) as u64
        }
    }

    /// Whether the fee check lets the pool pass.
    pub open spec fn fee_check(self) -> Result<(), Error> {
        if self.unsafe_fees {
            Ok(())
        } else if self.epoch_fee.is_zero() {
            Err(Error::EpochFeeZero)
        } else if self.withdrawal_fee.is_zero() && self.deposit_fee.is_zero() {
            Err(Error::WithdrawalAndDepositFeeZero)
        } else {
            Ok(())
        }
    }
}

/// The rent exemptions in the order in which they were asked for.
pub open spec fn balances_of(collected: Seq<u64>) -> RentBalances {
    RentBalances {
        reserve_stake: collected[0],
        mint: collected[1],
        pool_fee_account: collected[2],
        stake_pool: collected[3],
        validator_list: collected[4],
    }
}

/// What the command does at the start: unless told otherwise it checks the
/// fees, then it asks for the first rent exemption.
pub open spec fn create_pool_on_start(pool: CreatePool, next: CreatePoolState, action: Action) -> bool {
    match pool.fee_check() {
        Err(e) => {
            &&& next is Finished
            &&& action == Action::Fail(e)
        },
        Ok(_) => {
            &&& next matches CreatePoolState::AwaitingRent { collected }
            &&& collected@ == Seq::<u64>::empty()
            &&& action == Action::FetchMinimumBalance(pool.rent_size(0))
        },
    }
}

/// What the command does with a rent exemption: it asks for the next one,
/// and after the last for the manager's associated token account.
pub open spec fn create_pool_on_rent(
    config: JitoStakePoolCliConfig,
    pool: CreatePool,
    collected: Seq<u64>,
    lamports: u64,
    next: CreatePoolState,
    action: Action,
) -> bool {
    let grown = collected.push(lamports);
    if collected.len() >= RENT_QUERIES {
        &&& next is Finished
        &&& action is Unexpected
    } else if grown.len() < RENT_QUERIES {
        &&& next matches CreatePoolState::AwaitingRent { collected: kept }
        &&& kept@ == grown
        &&& action == Action::FetchMinimumBalance(pool.rent_size(grown.len() as int))
    } else if balances_of(grown).total(None) > u64::MAX {
        &&& next is Finished
        &&& action == Action::Fail(Error::LamportsOverflow)
    } else if !has_associated_token_address(config.manager@, pool.accounts.mint@) {
        &&& next is Finished
        &&& action == Action::Fail(Error::NoProgramAddress)
    } else {
        &&& next == CreatePoolState::AwaitingFeeAccount { balances: balances_of(grown) }
        &&& action matches Action::ProbeAccount(account)
        &&& account@ == associated_token_address(config.manager@, pool.accounts.mint@)
    }
}

/// How the command goes on once it knows whether the fee account has to be
/// created: it keeps the plan and asks for the fee of its first
/// transaction, or fails as the plan does.
pub open spec fn create_pool_on_plan(
    config: JitoStakePoolCliConfig,
    pool: CreatePool,
    balances: RentBalances,
    fee_account_rent: Option<u64>,
    next: CreatePoolState,
    action: Action,
) -> bool {
    match pool.plan(config, balances, fee_account_rent) {
        Ok(plan) => {
            &&& next matches CreatePoolState::AwaitingSetupFee { plan: kept }
            &&& kept@ == plan
            &&& action is FetchSetupFee
        },
        Err(e) => {
            &&& next is Finished
            &&& action == Action::Fail(e)
        },
    }
}

/// What the command does once it knows that the fee account is missing: it
/// asks what a token account costs.
pub open spec fn create_pool_on_missing_fee_account(
    balances: RentBalances,
    next: CreatePoolState,
    action: Action,
) -> bool {
    &&& next == CreatePoolState::AwaitingFeeAccountRent { balances }
    &&& action == Action::FetchMinimumBalance(TOKEN_ACCOUNT_LEN)
}

/// What the command does with the fee of the second transaction: it adds
/// up what the fee payer has to hold and asks for the fee payer's balance.
pub open spec fn create_pool_on_fees(
    config: JitoStakePoolCliConfig,
    plan: CreatePoolPlanView,
    setup_fee: u64,
    initialize_fee: u64,
    next: CreatePoolState,
    action: Action,
) -> bool {
    let required = plan.total_rent_free_balances + setup_fee + initialize_fee;
    if required > u64::MAX {
        &&& next is Finished
        &&& action == Action::Fail(Error::LamportsOverflow)
    } else {
        &&& next matches CreatePoolState::AwaitingBalance { plan: kept, required_balance }
        &&& kept@ == plan
        &&& required_balance == required
        &&& action == Action::FetchBalance(config.fee_payer)
    }
}

/// What the command does with the fee payer's balance: where it covers
/// what is required, the first transaction is handed out.
pub open spec fn create_pool_on_balance(
    config: JitoStakePoolCliConfig,
    plan: CreatePoolPlanView,
    required_balance: u64,
    balance: u64,
    next: CreatePoolState,
    action: Action,
) -> bool {
    if balance < required_balance {
        &&& next is Finished
        &&& action == Action::Fail(
            Error::InsufficientFeePayerBalance {
                fee_payer: config.fee_payer,
                required: required_balance,
                balance,
            },
        )
    } else {
        &&& next matches CreatePoolState::AwaitingSetupConfirmation { initialize }
        &&& initialize@ == plan.initialize
        &&& action.submits(plan.setup, config.dry_run)
    }
}

/// One step of the command: what `next` and `action` must be for `state`
/// and `event`.
pub open spec fn create_pool_step(
    config: JitoStakePoolCliConfig,
    pool: CreatePool,
    state: CreatePoolState,
    event: Event,
    next: CreatePoolState,
    action: Action,
) -> bool {
    match (state, event) {
        (CreatePoolState::Initial, Event::Start) => create_pool_on_start(pool, next, action),
        (CreatePoolState::AwaitingRent { collected }, Event::MinimumBalance(lamports)) => {
            create_pool_on_rent(config, pool, collected@, lamports, next, action)
        },
        (CreatePoolState::AwaitingFeeAccount { balances }, Event::AccountData(data)) => {
            if is_token_account_of(data@, pool.accounts.mint@) {
                create_pool_on_plan(config, pool, balances, None, next, action)
            } else {
                create_pool_on_missing_fee_account(balances, next, action)
            }
        },
        (CreatePoolState::AwaitingFeeAccount { balances }, Event::AccountUnavailable) => {
            create_pool_on_missing_fee_account(balances, next, action)
        },
        (CreatePoolState::AwaitingFeeAccountRent { balances }, Event::MinimumBalance(lamports)) => {
            create_pool_on_plan(config, pool, balances, Some(lamports), next, action)
        },
        (CreatePoolState::AwaitingSetupFee { plan }, Event::Fee(fee)) => {
            &&& next matches CreatePoolState::AwaitingInitializeFee { plan: kept, setup_fee }
            &&& kept@ == plan@
            &&& setup_fee == fee
            &&& action is FetchInitializeFee
        },
        (CreatePoolState::AwaitingInitializeFee { plan, setup_fee }, Event::Fee(fee)) => {
            create_pool_on_fees(config, plan@, setup_fee, fee, next, action)
        },
        (CreatePoolState::AwaitingBalance { plan, required_balance }, Event::Balance(balance)) => {
            create_pool_on_balance(config, plan@, required_balance, balance, next, action)
        },
        (CreatePoolState::AwaitingSetupConfirmation { initialize }, Event::Submitted) => {
            &&& next is AwaitingInitializeConfirmation
            &&& action.submits(initialize@, config.dry_run)
        },
        (CreatePoolState::AwaitingInitializeConfirmation, Event::Submitted) => {
            &&& next is Finished
            &&& action == Action::Done(Outcome::Submitted)
        },
        _ => {
            &&& next is Finished
            &&& action is Unexpected
        },
    }
}

fn rent_size_at(pool: &CreatePool, k: usize) -> (r: u64)
    ensures
        r == pool.rent_size(k as int),
{
    if k == 0 {
        STAKE_STATE_LEN
    } else if k == 1 {
        TOKEN_MINT_LEN
    } else if k == 2 {
        TOKEN_ACCOUNT_LEN
    } else if k == 3 {
        STAKE_POOL_LEN
    } else {
        validator_list_size(pool.max_validators)
    }
}

fn create_pool_proceed(
    config: &JitoStakePoolCliConfig,
    pool: &CreatePool,
    balances: &RentBalances,
    fee_account_rent: Option<u64>,
) -> (r: (CreatePoolState, Action))
    ensures
        create_pool_on_plan(*config, *pool, *balances, fee_account_rent, r.0, r.1),
{
    match create_pool_transactions(config, pool, balances, fee_account_rent) {
        Ok(plan) => (CreatePoolState::AwaitingSetupFee { plan }, Action::FetchSetupFee),
        Err(e) => (CreatePoolState::Finished, Action::Fail(e)),
    }
}

fn create_pool_collect(
    config: &JitoStakePoolCliConfig,
    pool: &CreatePool,
    collected: Vec<u64>,
    lamports: u64,
) -> (r: (CreatePoolState, Action))
    ensures
        create_pool_on_rent(*config, *pool, collected@, lamports, r.0, r.1),
{
    if collected.len() >= RENT_QUERIES {
        return (CreatePoolState::Finished, Action::Unexpected);
    }
    let mut collected = collected;
    collected.push(lamports);
    if collected.len() < RENT_QUERIES {
        let size = rent_size_at(pool, collected.len());
        return (CreatePoolState::AwaitingRent { collected }, Action::FetchMinimumBalance(size));
    }
    let balances = RentBalances {
        reserve_stake: collected[0],
        mint: collected[1],
        pool_fee_account: collected[2],
        stake_pool: collected[3],
        validator_list: collected[4],
    };
    if balances.checked_total(None).is_none() {
        return (CreatePoolState::Finished, Action::Fail(Error::LamportsOverflow));
    }
    match try_get_associated_token_address(&config.manager, &pool.accounts.mint) {
        Some(account) => (
            CreatePoolState::AwaitingFeeAccount { balances },
            Action::ProbeAccount(account),
        ),
        None => (CreatePoolState::Finished, Action::Fail(Error::NoProgramAddress)),
    }
}

/// Creates a pool, one step at a time.
///
/// The caller starts with `CreatePoolState::Initial` and `Event::Start`,
/// does what each action asks and hands the result back with the state that
/// came with the action, until the action is `Done`, `Fail` or `Unexpected`.
pub fn command_create_pool(
    config: &JitoStakePoolCliConfig,
    pool: &CreatePool,
    state: CreatePoolState,
    event: Event,
) -> (r: (CreatePoolState, Action))
    ensures
        create_pool_step(*config, *pool, state, event, r.0, r.1),
{
    match (state, event) {
        (CreatePoolState::Initial, Event::Start) => {
            if !pool.unsafe_fees {
                match check_stake_pool_fees(
                    &pool.epoch_fee,
                    &pool.withdrawal_fee,
                    &pool.deposit_fee,
                ) {
                    Err(e) => {
                        return (CreatePoolState::Finished, Action::Fail(e));
                    },
                    Ok(_) => {},
                }
            }
            (
                CreatePoolState::AwaitingRent { collected: Vec::new() },
                Action::FetchMinimumBalance(STAKE_STATE_LEN),
            )
        },
        (CreatePoolState::AwaitingRent { collected }, Event::MinimumBalance(lamports)) => {
            create_pool_collect(config, pool, collected, lamports)
        },
        (CreatePoolState::AwaitingFeeAccount { balances }, Event::AccountData(data)) => {
            if get_token_account(&data, &pool.accounts.mint) {
                create_pool_proceed(config, pool, &balances, None)
            } else {
                (
                    CreatePoolState::AwaitingFeeAccountRent { balances },
                    Action::FetchMinimumBalance(TOKEN_ACCOUNT_LEN),
                )
            }
        },
        (CreatePoolState::AwaitingFeeAccount { balances }, Event::AccountUnavailable) => (
            CreatePoolState::AwaitingFeeAccountRent { balances },
            Action::FetchMinimumBalance(TOKEN_ACCOUNT_LEN),
        ),
        (CreatePoolState::AwaitingFeeAccountRent { balances }, Event::MinimumBalance(lamports)) => {
            create_pool_proceed(config, pool, &balances, Some(lamports))
        },
        (CreatePoolState::AwaitingSetupFee { plan }, Event::Fee(fee)) => (
            CreatePoolState::AwaitingInitializeFee { plan, setup_fee: fee },
            Action::FetchInitializeFee,
        ),
        (CreatePoolState::AwaitingInitializeFee { plan, setup_fee }, Event::Fee(fee)) => {
            let required = match plan.total_rent_free_balances.checked_add(setup_fee) {
                Some(sum) => sum.checked_add(fee),
                None => None,
            };
            match required {
                Some(required_balance) => (
                    CreatePoolState::AwaitingBalance { plan, required_balance },
                    Action::FetchBalance(config.fee_payer),
                ),
                None => (CreatePoolState::Finished, Action::Fail(Error::LamportsOverflow)),
            }
        },
        (CreatePoolState::AwaitingBalance { plan, required_balance }, Event::Balance(balance)) => {
            match check_fee_payer_balance(config, balance, required_balance) {
                Err(e) => (CreatePoolState::Finished, Action::Fail(e)),
                Ok(_) => {
                    let CreatePoolPlan { setup, initialize, total_rent_free_balances: _ } = plan;
                    (
                        CreatePoolState::AwaitingSetupConfirmation { initialize },
                        Action::Submit(send_transaction(config, setup)),
                    )
                },
            }
        },
        (CreatePoolState::AwaitingSetupConfirmation { initialize }, Event::Submitted) => (
            CreatePoolState::AwaitingInitializeConfirmation,
            Action::Submit(send_transaction(config, initialize)),
        ),
        (CreatePoolState::AwaitingInitializeConfirmation, Event::Submitted) => (
            CreatePoolState::Finished,
            Action::Done(Outcome::Submitted),
        ),
        _ => (CreatePoolState::Finished, Action::Unexpected),
    }
}

/// Unless the check is bypassed, a pool without an epoch fee, or without
/// both a withdrawal fee and a deposit fee, is refused before anything is
/// asked of the network.
pub proof fn lemma_unsafe_fees_are_refused_at_the_start(
    config: JitoStakePoolCliConfig,
    pool: CreatePool,
    next: CreatePoolState,
    action: Action,
)
    requires
        !pool.unsafe_fees,
        pool.epoch_fee.is_zero() || (pool.withdrawal_fee.is_zero() && pool.deposit_fee.is_zero()),
        create_pool_step(config, pool, CreatePoolState::Initial, Event::Start, next, action),
    ensures
        next is Finished,
        action is Fail,
        pool.epoch_fee.is_zero() ==> action == Action::Fail(Error::EpochFeeZero),
        !pool.epoch_fee.is_zero() ==> action == Action::Fail(Error::WithdrawalAndDepositFeeZero),
{
}

/// The first transaction is handed out only for a balance of the fee payer
/// that covers what is required.
pub proof fn lemma_pool_is_created_only_with_the_balance(
    config: JitoStakePoolCliConfig,
    pool: CreatePool,
    plan: CreatePoolPlan,
    required_balance: u64,
    balance: u64,
    next: CreatePoolState,
    action: Action,
)
    requires
        create_pool_step(
            config,
            pool,
            CreatePoolState::AwaitingBalance { plan, required_balance },
            Event::Balance(balance),
            next,
            action,
        ),
    ensures
        action.is_submission() <==> balance >= required_balance,
        action.is_submission() ==> action.submits(plan@.setup, config.dry_run),
{
}

/// Both transactions of a planned pool name a signer for every signature
/// that their instructions require.
pub proof fn lemma_planned_pool_is_fully_signed(
    config: JitoStakePoolCliConfig,
    pool: CreatePool,
    balances: RentBalances,
    fee_account_rent: Option<u64>,
)
    requires
        pool.plan(config, balances, fee_account_rent) is Ok,
    ensures
        pool.plan(config, balances, fee_account_rent)->Ok_0.setup.is_fully_signed(),
        pool.plan(config, balances, fee_account_rent)->Ok_0.initialize.is_fully_signed(),
{
    let plan = pool.plan(config, balances, fee_account_rent)->Ok_0;
    let setup_signers = pool.setup_signers(config);
    let initialize_signers = pool.initialize_signers(config);
    lemma_unique_signers_exist(setup_signers);
    lemma_unique_signers_exist(initialize_signers);
    assert(setup_signers[0] == config.fee_payer@);
    assert(setup_signers[1] == pool.accounts.mint@);
    assert(setup_signers[2] == pool.accounts.reserve@);
    assert(initialize_signers[0] == config.fee_payer@);
    assert(initialize_signers[1] == pool.accounts.stake_pool@);
    assert(initialize_signers[2] == pool.accounts.validator_list@);
    assert(initialize_signers[3] == config.manager@);
    if pool.deposit_authority is Some {
        assert(initialize_signers[4] == pool.deposit_authority->0@);
    }
    assert forall|i: int, j: int| #[trigger]
        plan.setup.requires_signature(i, j) implies plan.setup.signers.contains(
        plan.setup.instructions[i].accounts[j].pubkey,
    ) by {
        let who = plan.setup.instructions[i].accounts[j].pubkey;
        if i == 0 {
            assert(j == 0 || j == 1);
        } else if i == 1 {
            assert(false);
        } else if i == 2 {
            assert(j == 0 || j == 1);
        } else if i == 3 {
            assert(false);
        } else {
            assert(j == 0);
        }
        assert(setup_signers.contains(who));
    }
    assert forall|i: int, j: int| #[trigger]
        plan.initialize.requires_signature(i, j) implies plan.initialize.signers.contains(
        plan.initialize.instructions[i].accounts[j].pubkey,
    ) by {
        let who = plan.initialize.instructions[i].accounts[j].pubkey;
        if i == 0 {
            assert(j == 0 || j == 1);
        } else if i == 1 {
            assert(j == 0 || j == 1);
        } else {
            assert(j == 1 || j == 9);
        }
        assert(initialize_signers.contains(who));
    }
}

/// A command that is over stays over: whatever it is handed, it asks for
/// nothing more.
pub proof fn lemma_create_pool_ends_once(
    config: JitoStakePoolCliConfig,
    pool: CreatePool,
    event: Event,
    next: CreatePoolState,
    action: Action,
)
    requires
        create_pool_step(config, pool, CreatePoolState::Finished, event, next, action),
    ensures
        next is Finished,
        action is Unexpected,
{
}

impl CreatePoolState {
    /// An upper bound on the steps that the command still takes.
    pub open spec fn steps_left(self) -> nat {
        match self {
            CreatePoolState::Initial => 13,
            CreatePoolState::AwaitingRent { collected } => if collected@.len() < RENT_QUERIES {
                (12 - collected@.len()) as nat
            } else {
                8
            },
            CreatePoolState::AwaitingFeeAccount { .. } => 7,
            CreatePoolState::AwaitingFeeAccountRent { .. } => 6,
            CreatePoolState::AwaitingSetupFee { .. } => 5,
            CreatePoolState::AwaitingInitializeFee { .. } => 4,
            CreatePoolState::AwaitingBalance { .. } => 3,
            CreatePoolState::AwaitingSetupConfirmation { .. } => 2,
            CreatePoolState::AwaitingInitializeConfirmation => 1,
            CreatePoolState::Finished => 0,
        }
    }
}

/// Every step brings the command nearer to its end, so that it is over
/// after thirteen steps at most.
pub proof fn lemma_create_pool_makes_progress(
    config: JitoStakePoolCliConfig,
    pool: CreatePool,
    state: CreatePoolState,
    event: Event,
    next: CreatePoolState,
    action: Action,
)
    requires
        create_pool_step(config, pool, state, event, next, action),
        !(state is Finished),
    ensures
        next.steps_left() < state.steps_left(),
{
}

} // verus!
