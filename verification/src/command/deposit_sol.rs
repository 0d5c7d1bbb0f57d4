//! Depositing SOL into the pool's reserve in exchange for pool tokens.

use vstd::prelude::*;
use vstd::bytes::spec_u64_to_le_bytes;
use vstd::string::is_ascii;
use solana_program::pubkey::Pubkey;
use crate::address::Address;
use crate::client::get_stake_pool;
use crate::command::{Action, Event, Outcome};
use crate::config::JitoStakePoolCliConfig;
use crate::error::Error;
use crate::ids::{
    stake_pool_program_bytes, stake_pool_program_id, system_program_bytes, token_program_bytes,
    token_program_id,
};
use crate::instruction::{
    instruction_views, readonly, writable, AccountMeta, AccountMetaView, Instruction,
    InstructionView,
};
use crate::pda::{
    derivable, derived_address, try_find_withdraw_authority_program_address,
    withdraw_authority_seeds,
};
use crate::programs::{
    associated_token_address, ata_create_associated_token_account,
    create_associated_token_account_instruction, get_associated_token_address, get_token_account,
    has_associated_token_address, is_token_account_of, system_transfer, transfer_instruction,
    try_get_associated_token_address, TOKEN_ACCOUNT_LEN,
};
use crate::state::{stake_pool_decoding, StakePool};
use crate::transaction::{
    address_views, checked_transaction_with_signers, send_transaction, Transaction,
    TransactionView,
};

verus! {

/// The lamports that `solana_program` reads from the decimal text
/// `sol_str`, an amount of SOL with up to nine decimal places, or `None`
/// where it reads none.
pub uninterp spec fn sol_text_lamports(sol_str: Seq<char>) -> Option<u64>;

/// Calls `solana_program::native_token::sol_str_to_lamports`.
///
/// Trusted: the outcome is a function of the text, which
/// `sol_text_lamports` names. The call cuts the decimal places at the ninth
/// byte and panics where that splits a character, which cannot happen in
/// the ASCII text that `requires` asks for.
#[verifier::external_body]
fn native_sol_str_to_lamports(sol_str: &str) -> (r: Option<u64>)
    requires
        is_ascii(sol_str),
    ensures
        r == sol_text_lamports(sol_str@),
{
    solana_program::native_token::sol_str_to_lamports(sol_str)
}

/// Whether `sol_str` spells an amount of SOL: it is ASCII text from which
/// lamports can be read.
pub open spec fn spells_an_amount(sol_str: &str) -> bool {
    is_ascii(sol_str) && sol_text_lamports(sol_str@) is Some
}

/// Reads an amount of SOL, written as a decimal number, as lamports.
pub fn sol_str_to_lamports(sol_str: &str) -> (r: Result<u64, Error>)
    ensures
        spells_an_amount(sol_str) ==> r == Ok::<u64, Error>(sol_text_lamports(sol_str@)->0),
        !spells_an_amount(sol_str) ==> r == Err::<u64, Error>(Error::InvalidAmount),
{
    if !sol_str.is_ascii() {
        return Err(Error::InvalidAmount);
    }
    match native_sol_str_to_lamports(sol_str) {
        Some(lamports) => Ok(lamports),
        None => Err(Error::InvalidAmount),
    }
}

/// The accounts of a SOL deposit, in the order the program reads them. The
/// source of the lamports signs; where the pool has a deposit authority, it
/// stands last and signs too.
pub open spec fn deposit_sol_accounts(
    stake_pool: Seq<u8>,
    stake_pool_withdraw_authority: Seq<u8>,
    reserve_stake_account: Seq<u8>,
    lamports_from: Seq<u8>,
    pool_tokens_to: Seq<u8>,
    manager_fee_account: Seq<u8>,
    referrer_pool_tokens_account: Seq<u8>,
    pool_mint: Seq<u8>,
    token_program_id: Seq<u8>,
    sol_deposit_authority: Option<Seq<u8>>,
) -> Seq<AccountMetaView> {
    let common = seq![
        writable(stake_pool, false),
        readonly(stake_pool_withdraw_authority, false),
        writable(reserve_stake_account, false),
        writable(lamports_from, true),
        writable(pool_tokens_to, false),
        writable(manager_fee_account, false),
        writable(referrer_pool_tokens_account, false),
        writable(pool_mint, false),
        readonly(system_program_bytes(), false),
        readonly(token_program_id, false),
    ];
    match sol_deposit_authority {
        Some(authority) => common.push(readonly(authority, true)),
        None => common,
    }
}

/// The instruction that deposits `lamports_in` into a pool: its data is the
/// tag 14 and the lamports as eight little-endian bytes.
pub open spec fn deposit_sol_instruction(
    program_id: Seq<u8>,
    stake_pool: Seq<u8>,
    stake_pool_withdraw_authority: Seq<u8>,
    reserve_stake_account: Seq<u8>,
    lamports_from: Seq<u8>,
    pool_tokens_to: Seq<u8>,
    manager_fee_account: Seq<u8>,
    referrer_pool_tokens_account: Seq<u8>,
    pool_mint: Seq<u8>,
    token_program_id: Seq<u8>,
    sol_deposit_authority: Option<Seq<u8>>,
    lamports_in: u64,
) -> InstructionView {
    InstructionView {
        program_id,
        accounts: deposit_sol_accounts(
            stake_pool,
            stake_pool_withdraw_authority,
            reserve_stake_account,
            lamports_from,
            pool_tokens_to,
            manager_fee_account,
            referrer_pool_tokens_account,
            pool_mint,
            token_program_id,
            sol_deposit_authority,
        ),
        data: seq![14u8] + spec_u64_to_le_bytes(lamports_in),
    }
}

/// Calls `spl_stake_pool::instruction::deposit_sol`.
///
/// Trusted: the instruction is `deposit_sol_instruction` without a deposit
/// authority, as the function's source lists the ten accounts and `borsh`
/// writes the `DepositSol` variant, the fifteenth of the program's
/// instructions.
#[verifier::external_body]
pub(crate) fn pool_deposit_sol(
    program_id: &Address,
    stake_pool: &Address,
    stake_pool_withdraw_authority: &Address,
    reserve_stake_account: &Address,
    lamports_from: &Address,
    pool_tokens_to: &Address,
    manager_fee_account: &Address,
    referrer_pool_tokens_account: &Address,
    pool_mint: &Address,
    token_program_id: &Address,
    lamports_in: u64,
) -> (r: Instruction)
    ensures
        r@ == deposit_sol_instruction(
            program_id@,
            stake_pool@,
            stake_pool_withdraw_authority@,
            reserve_stake_account@,
            lamports_from@,
            pool_tokens_to@,
            manager_fee_account@,
            referrer_pool_tokens_account@,
            pool_mint@,
            token_program_id@,
            None,
            lamports_in,
        ),
{
    let key = |a: &Address| Pubkey::new_from_array(a.bytes);
    let made = spl_stake_pool::instruction::deposit_sol(
        &key(program_id), &key(stake_pool), &key(stake_pool_withdraw_authority),
        &key(reserve_stake_account), &key(lamports_from), &key(pool_tokens_to),
        &key(manager_fee_account), &key(referrer_pool_tokens_account), &key(pool_mint),
        &key(token_program_id), lamports_in,
    );
    let accounts = made.accounts.iter().map(
        |m| AccountMeta::from_parts(m.pubkey.to_bytes(), m.is_signer, m.is_writable),
    ).collect();
    Instruction::from_parts(made.program_id.to_bytes(), accounts, made.data)
}

/// Calls `spl_stake_pool::instruction::deposit_sol_with_authority`.
///
/// Trusted: the instruction is `deposit_sol_instruction` with
/// `sol_deposit_authority` as the eleventh account, which signs.
#[verifier::external_body]
pub(crate) fn pool_deposit_sol_with_authority(
    program_id: &Address,
    stake_pool: &Address,
    sol_deposit_authority: &Address,
    stake_pool_withdraw_authority: &Address,
    reserve_stake_account: &Address,
    lamports_from: &Address,
    pool_tokens_to: &Address,
    manager_fee_account: &Address,
    referrer_pool_tokens_account: &Address,
    pool_mint: &Address,
    token_program_id: &Address,
    lamports_in: u64,
) -> (r: Instruction)
    ensures
        r@ == deposit_sol_instruction(
            program_id@,
            stake_pool@,
            stake_pool_withdraw_authority@,
            reserve_stake_account@,
            lamports_from@,
            pool_tokens_to@,
            manager_fee_account@,
            referrer_pool_tokens_account@,
            pool_mint@,
            token_program_id@,
            Some(sol_deposit_authority@),
            lamports_in,
        ),
{
    let key = |a: &Address| Pubkey::new_from_array(a.bytes);
    let made = spl_stake_pool::instruction::deposit_sol_with_authority(
        &key(program_id), &key(stake_pool), &key(sol_deposit_authority),
        &key(stake_pool_withdraw_authority), &key(reserve_stake_account), &key(lamports_from),
        &key(pool_tokens_to), &key(manager_fee_account), &key(referrer_pool_tokens_account),
        &key(pool_mint), &key(token_program_id), lamports_in,
    );
    let accounts = made.accounts.iter().map(
        |m| AccountMeta::from_parts(m.pubkey.to_bytes(), m.is_signer, m.is_writable),
    ).collect();
    Instruction::from_parts(made.program_id.to_bytes(), accounts, made.data)
}

/// Makes sure that `owner` has an associated token account for `mint`, and
/// returns its address.
///
/// `min_account_balance` is `None` where the account exists. Where it does
/// not, it holds the lamports that exempt a token account from rent: the
/// instruction that creates the account, paid for by the fee payer, is
/// appended to `instructions`, and the lamports are added to
/// `rent_free_balances`.
pub fn add_associated_token_account(
    config: &JitoStakePoolCliConfig,
    mint: &Address,
    owner: &Address,
    min_account_balance: Option<u64>,
    instructions: &mut Vec<Instruction>,
    rent_free_balances: &mut u64,
) -> (account: Address)
    requires
        has_associated_token_address(owner@, mint@),
        min_account_balance matches Some(lamports) ==> *old(rent_free_balances) + lamports
            <= u64::MAX,
    ensures
        account@ == associated_token_address(owner@, mint@),
        match min_account_balance {
            Some(lamports) => {
                &&& instruction_views(final(instructions)@) == instruction_views(
                    old(instructions)@,
                ).push(
                    create_associated_token_account_instruction(config.fee_payer@, owner@, mint@),
                )
                &&& *final(rent_free_balances) == *old(rent_free_balances) + lamports
            },
            None => {
                &&& *final(instructions) == *old(instructions)
                &&& *final(rent_free_balances) == *old(rent_free_balances)
            },
        },
{
    let account = get_associated_token_address(owner, mint);
    match min_account_balance {
        Some(lamports) => {
            let created = ata_create_associated_token_account(&config.fee_payer, owner, mint);
            instructions.push(created);
            *rent_free_balances = *rent_free_balances + lamports;
            assert(instruction_views(instructions@) =~= instruction_views(
                old(instructions)@,
            ).push(created@));
        },
        None => {},
    }
    account
}

/// What a SOL deposit is run with.
#[derive(Clone, Copy, Debug)]
pub struct DepositSol {
    /// The pool to deposit into.
    pub stake_pool_address: Address,
    /// The account the lamports come from; the fee payer where left out.
    pub from: Option<Address>,
    /// A fresh account through which the lamports pass; its key signs.
    pub user_sol_transfer: Address,
    /// The token account that receives the pool tokens; the token owner's
    /// associated token account where left out.
    pub pool_token_receiver_account: Option<Address>,
    /// The token account that receives the referral fee; the receiver of
    /// the pool tokens where left out.
    pub referrer_token_account: Option<Address>,
    /// Lamports to deposit.
    pub amount: u64,
}

/// The given address, or `default` where none is given.
pub open spec fn or_address(given: Option<Address>, default: Seq<u8>) -> Seq<u8> {
    match given {
        Some(a) => a@,
        None => default,
    }
}

impl DepositSol {
    /// The account the lamports come from.
    pub open spec fn source(self, config: JitoStakePoolCliConfig) -> Seq<u8> {
        or_address(self.from, config.fee_payer@)
    }

    /// The signers of the deposit: the fee payer and the pass-through
    /// account, then the source where one is given, then the funding
    /// authority where one is configured.
    pub open spec fn signers(self, config: JitoStakePoolCliConfig) -> Seq<Seq<u8>> {
        let base = seq![config.fee_payer@, self.user_sol_transfer@];
        let with_source = match self.from {
            Some(from) => base.push(from@),
            None => base,
        };
        match config.funding_authority {
            Some(authority) => with_source.push(authority@),
            None => with_source,
        }
    }

    /// The deposit instruction for `stake_pool`.
    pub open spec fn deposit_instruction(
        self,
        config: JitoStakePoolCliConfig,
        stake_pool: StakePool,
    ) -> InstructionView {
        let program_id = stake_pool_program_bytes();
        let receiver = or_address(
            self.pool_token_receiver_account,
            associated_token_address(config.token_owner@, stake_pool.pool_mint@),
        );
        deposit_sol_instruction(
            program_id,
            self.stake_pool_address@,
            derived_address(withdraw_authority_seeds(self.stake_pool_address@), program_id),
            stake_pool.reserve_stake@,
            self.user_sol_transfer@,
            receiver,
            stake_pool.manager_fee_account@,
            or_address(self.referrer_token_account, receiver),
            stake_pool.pool_mint@,
            token_program_bytes(),
            match config.funding_authority {
                Some(authority) => Some(authority@),
                None => None,
            },
            self.amount,
        )
    }

    /// The instructions of the deposit for `stake_pool`: the transfer to
    /// the pass-through account, then, where the token owner's associated
    /// token account has to be created, its creation, then the deposit.
    pub open spec fn instructions(
        self,
        config: JitoStakePoolCliConfig,
        stake_pool: StakePool,
        create_token_account: bool,
    ) -> Seq<InstructionView> {
        let transfer = seq![
            transfer_instruction(self.source(config), self.user_sol_transfer@, self.amount),
        ];
        let prepared = if create_token_account {
            transfer.push(
                create_associated_token_account_instruction(
                    config.fee_payer@,
                    config.token_owner@,
                    stake_pool.pool_mint@,
                ),
            )
        } else {
            transfer
        };
        prepared.push(self.deposit_instruction(config, stake_pool))
    }

    /// Whether the addresses that the deposit needs can be derived.
    pub open spec fn derivable(self, config: JitoStakePoolCliConfig, stake_pool: StakePool) -> bool {
        &&& has_associated_token_address(config.token_owner@, stake_pool.pool_mint@)
        &&& derivable(withdraw_authority_seeds(self.stake_pool_address@), stake_pool_program_bytes())
    }

    /// What the deposit comes to for `stake_pool`: its transaction, or why
    /// there is none.
    ///
    /// A funding authority is accepted only where the pool has a SOL
    /// deposit authority and it is that one.
    pub open spec fn plan(
        self,
        config: JitoStakePoolCliConfig,
        stake_pool: StakePool,
        create_token_account: bool,
    ) -> Result<TransactionView, Error> {
        if !self.derivable(config, stake_pool) {
            Err(Error::NoProgramAddress)
        } else if config.funding_authority is Some && stake_pool.sol_deposit_authority is None {
            Err(Error::NoSolDepositAuthority)
        } else if config.funding_authority is Some && config.funding_authority->0@
            != stake_pool.sol_deposit_authority->0@ {
            Err(
                Error::InvalidDepositAuthority {
                    expected: stake_pool.sol_deposit_authority->0,
                    received: config.funding_authority->0,
                },
            )
        } else {
            Ok(
                TransactionView {
                    fee_payer: config.fee_payer@,
                    instructions: self.instructions(config, stake_pool, create_token_account),
                    signers: self.signers(config),
                },
            )
        }
    }
}

/// Assembles the transaction of a SOL deposit into `stake_pool`.
///
/// `min_account_balance` is `None` where the token owner's associated token
/// account exists, and otherwise the lamports that exempt a token account
/// from rent.
pub fn deposit_sol_transaction(
    config: &JitoStakePoolCliConfig,
    deposit: &DepositSol,
    stake_pool: &StakePool,
    min_account_balance: Option<u64>,
) -> (r: Result<Transaction, Error>)
    ensures
        match r {
            Ok(transaction) => deposit.plan(*config, *stake_pool, min_account_balance is Some)
                == Ok::<TransactionView, Error>(transaction@),
            Err(e) => deposit.plan(*config, *stake_pool, min_account_balance is Some)
                == Err::<TransactionView, Error>(e),
        },
{
    let from_pubkey = match deposit.from {
        Some(from) => from,
        None => config.fee_payer,
    };
    let mut instructions: Vec<Instruction> = Vec::new();
    let mut signers = vec![config.fee_payer, deposit.user_sol_transfer];
    if let Some(from) = deposit.from {
        signers.push(from);
    }
    let mut total_rent_free_balances: u64 = 0;
    instructions.push(system_transfer(&from_pubkey, &deposit.user_sol_transfer, deposit.amount));
    let ghost transfer = seq![
        transfer_instruction(deposit.source(*config), deposit.user_sol_transfer@, deposit.amount),
    ];
    assert(instruction_views(instructions@) =~= transfer);

    if try_get_associated_token_address(&config.token_owner, &stake_pool.pool_mint).is_none() {
        return Err(Error::NoProgramAddress);
    }
    let token_account = add_associated_token_account(
        config,
        &stake_pool.pool_mint,
        &config.token_owner,
        min_account_balance,
        &mut instructions,
        &mut total_rent_free_balances,
    );
    let pool_token_receiver_account = match deposit.pool_token_receiver_account {
        Some(account) => account,
        None => token_account,
    };
    let referrer_token_account = match deposit.referrer_token_account {
        Some(account) => account,
        None => pool_token_receiver_account,
    };
    let program_id = stake_pool_program_id();
    let pool_withdraw_authority = match try_find_withdraw_authority_program_address(
        &program_id,
        &deposit.stake_pool_address,
    ) {
        Some(found) => found.0,
        None => {
            return Err(Error::NoProgramAddress);
        },
    };
    let deposit_instruction = match config.funding_authority {
        Some(deposit_authority) => {
            let expected_sol_deposit_authority = match stake_pool.sol_deposit_authority {
                Some(expected) => expected,
                None => {
                    return Err(Error::NoSolDepositAuthority);
                },
            };
            signers.push(deposit_authority);
            if !deposit_authority.same(&expected_sol_deposit_authority) {
                return Err(
                    Error::InvalidDepositAuthority {
                        expected: expected_sol_deposit_authority,
                        received: deposit_authority,
                    },
                );
            }
            pool_deposit_sol_with_authority(
                &program_id,
                &deposit.stake_pool_address,
                &deposit_authority,
                &pool_withdraw_authority,
                &stake_pool.reserve_stake,
                &deposit.user_sol_transfer,
                &pool_token_receiver_account,
                &stake_pool.manager_fee_account,
                &referrer_token_account,
                &stake_pool.pool_mint,
                &token_program_id(),
                deposit.amount,
            )
        },
        None => pool_deposit_sol(
            &program_id,
            &deposit.stake_pool_address,
            &pool_withdraw_authority,
            &stake_pool.reserve_stake,
            &deposit.user_sol_transfer,
            &pool_token_receiver_account,
            &stake_pool.manager_fee_account,
            &referrer_token_account,
            &stake_pool.pool_mint,
            &token_program_id(),
            deposit.amount,
        ),
    };
    let ghost prepared = instruction_views(instructions@);
    instructions.push(deposit_instruction);
    proof {
        let expected = deposit.plan(*config, *stake_pool, min_account_balance is Some)->Ok_0;
        assert(address_views(signers@) =~= expected.signers);
        assert(instruction_views(instructions@) =~= prepared.push(deposit_instruction@));
        assert(instruction_views(instructions@) =~= expected.instructions);
    }
    Ok(checked_transaction_with_signers(config, instructions, signers))
}

/// Where the command stands.
#[derive(Clone, Copy, Debug)]
pub enum DepositSolState {
    /// Nothing has been done.
    Initial,
    /// The balance of the source has been asked for.
    AwaitingBalance,
    /// The stake pool's account has been asked for.
    AwaitingStakePool,
    /// The token owner's associated token account has been asked for.
    AwaitingTokenAccount { stake_pool: StakePool },
    /// The rent exemption of a token account has been asked for: the token
    /// owner's associated token account has to be created.
    AwaitingRentExemption { stake_pool: StakePool },
    /// The transaction has been handed out.
    AwaitingConfirmation,
    /// The command is over.
    Finished,
}

/// How the command goes on once it knows whether the token account has to
/// be created: it hands out the transaction of the plan, or fails as the
/// plan does.
pub open spec fn deposit_sol_on_plan(
    config: JitoStakePoolCliConfig,
    deposit: DepositSol,
    stake_pool: StakePool,
    create_token_account: bool,
    next: DepositSolState,
    action: Action,
) -> bool {
    match deposit.plan(config, stake_pool, create_token_account) {
        Ok(transaction) => {
            &&& next is AwaitingConfirmation
            &&& action.submits(transaction, config.dry_run)
        },
        Err(e) => {
            &&& next is Finished
            &&& action == Action::Fail(e)
        },
    }
}

/// What the command does with the balance of the source: a balance below
/// the amount ends it.
pub open spec fn deposit_sol_on_balance(
    deposit: DepositSol,
    balance: u64,
    next: DepositSolState,
    action: Action,
) -> bool {
    if balance < deposit.amount {
        &&& next is Finished
        &&& action == Action::Fail(Error::NotEnoughSol { amount: deposit.amount, balance })
    } else {
        &&& next is AwaitingStakePool
        &&& action == Action::FetchAccount(deposit.stake_pool_address)
    }
}

/// What the command does with the data of the pool's account: it asks for
/// the token owner's associated token account of the pool's mint.
pub open spec fn deposit_sol_on_stake_pool(
    config: JitoStakePoolCliConfig,
    deposit: DepositSol,
    data: Seq<u8>,
    next: DepositSolState,
    action: Action,
) -> bool {
    match stake_pool_decoding(data) {
        None => {
            &&& next is Finished
            &&& action matches Action::Fail(Error::InvalidStakePool { address, .. })
            &&& address == deposit.stake_pool_address
        },
        Some(stake_pool) => {
            if has_associated_token_address(config.token_owner@, stake_pool.pool_mint@) {
                &&& next == DepositSolState::AwaitingTokenAccount { stake_pool }
                &&& action matches Action::ProbeAccount(account)
                &&& account@ == associated_token_address(
                    config.token_owner@,
                    stake_pool.pool_mint@,
                )
            } else {
                &&& next is Finished
                &&& action == Action::Fail(Error::NoProgramAddress)
            }
        },
    }
}

/// What the command does once it knows that the token account is missing:
/// it asks what a token account costs.
pub open spec fn deposit_sol_on_missing_token_account(
    stake_pool: StakePool,
    next: DepositSolState,
    action: Action,
) -> bool {
    &&& next == DepositSolState::AwaitingRentExemption { stake_pool }
    &&& action == Action::FetchMinimumBalance(TOKEN_ACCOUNT_LEN)
}

/// One step of the command: what `next` and `action` must be for `state`
/// and `event`.
pub open spec fn deposit_sol_step(
    config: JitoStakePoolCliConfig,
    deposit: DepositSol,
    state: DepositSolState,
    event: Event,
    next: DepositSolState,
    action: Action,
) -> bool {
    match (state, event) {
        (DepositSolState::Initial, Event::Start) => {
            &&& next is AwaitingBalance
            &&& action matches Action::FetchBalance(account)
            &&& account@ == deposit.source(config)
        },
        (DepositSolState::AwaitingBalance, Event::Balance(balance)) => deposit_sol_on_balance(
            deposit,
            balance,
            next,
            action,
        ),
        (DepositSolState::AwaitingStakePool, Event::AccountData(data)) => {
            deposit_sol_on_stake_pool(config, deposit, data@, next, action)
        },
        (DepositSolState::AwaitingTokenAccount { stake_pool }, Event::AccountData(data)) => {
            if is_token_account_of(data@, stake_pool.pool_mint@) {
                deposit_sol_on_plan(config, deposit, stake_pool, false, next, action)
            } else {
                deposit_sol_on_missing_token_account(stake_pool, next, action)
            }
        },
        (DepositSolState::AwaitingTokenAccount { stake_pool }, Event::AccountUnavailable) => {
            deposit_sol_on_missing_token_account(stake_pool, next, action)
        },
        (DepositSolState::AwaitingRentExemption { stake_pool }, Event::MinimumBalance(_)) => {
            deposit_sol_on_plan(config, deposit, stake_pool, true, next, action)
        },
        (DepositSolState::AwaitingConfirmation, Event::Submitted) => {
            &&& next is Finished
            &&& action == Action::Done(Outcome::Submitted)
        },
        _ => {
            &&& next is Finished
            &&& action is Unexpected
        },
    }
}

fn deposit_sol_finish(
    config: &JitoStakePoolCliConfig,
    deposit: &DepositSol,
    stake_pool: &StakePool,
    min_account_balance: Option<u64>,
) -> (r: (DepositSolState, Action))
    ensures
        deposit_sol_on_plan(
            *config,
            *deposit,
            *stake_pool,
            min_account_balance is Some,
            r.0,
            r.1,
        ),
{
    match deposit_sol_transaction(config, deposit, stake_pool, min_account_balance) {
        Ok(transaction) => (
            DepositSolState::AwaitingConfirmation,
            Action::Submit(send_transaction(config, transaction)),
        ),
        Err(e) => (DepositSolState::Finished, Action::Fail(e)),
    }
}

/// Deposits SOL into a pool, one step at a time.
///
/// The caller starts with `DepositSolState::Initial` and `Event::Start`,
/// does what each action asks and hands the result back with the state that
/// came with the action, until the action is `Done`, `Fail` or `Unexpected`.
pub fn command_deposit_sol(
    config: &JitoStakePoolCliConfig,
    deposit: &DepositSol,
    state: DepositSolState,
    event: Event,
) -> (r: (DepositSolState, Action))
    ensures
        deposit_sol_step(*config, *deposit, state, event, r.0, r.1),
{
    match (state, event) {
        (DepositSolState::Initial, Event::Start) => {
            let from_pubkey = match deposit.from {
                Some(from) => from,
                None => config.fee_payer,
            };
            (DepositSolState::AwaitingBalance, Action::FetchBalance(from_pubkey))
        },
        (DepositSolState::AwaitingBalance, Event::Balance(from_balance)) => {
            if from_balance < deposit.amount {
                (
                    DepositSolState::Finished,
                    Action::Fail(
                        Error::NotEnoughSol { amount: deposit.amount, balance: from_balance },
                    ),
                )
            } else {
                (
                    DepositSolState::AwaitingStakePool,
                    Action::FetchAccount(deposit.stake_pool_address),
                )
            }
        },
        (DepositSolState::AwaitingStakePool, Event::AccountData(data)) => {
            match get_stake_pool(&deposit.stake_pool_address, &data) {
                Err(e) => (DepositSolState::Finished, Action::Fail(e)),
                Ok(stake_pool) => {
                    match try_get_associated_token_address(
                        &config.token_owner,
                        &stake_pool.pool_mint,
                    ) {
                        Some(account) => (
                            DepositSolState::AwaitingTokenAccount { stake_pool },
                            Action::ProbeAccount(account),
                        ),
                        None => (DepositSolState::Finished, Action::Fail(Error::NoProgramAddress)),
                    }
                },
            }
        },
        (DepositSolState::AwaitingTokenAccount { stake_pool }, Event::AccountData(data)) => {
            if get_token_account(&data, &stake_pool.pool_mint) {
                deposit_sol_finish(config, deposit, &stake_pool, None)
            } else {
                (
                    DepositSolState::AwaitingRentExemption { stake_pool },
                    Action::FetchMinimumBalance(TOKEN_ACCOUNT_LEN),
                )
            }
        },
        (DepositSolState::AwaitingTokenAccount { stake_pool }, Event::AccountUnavailable) => (
            DepositSolState::AwaitingRentExemption { stake_pool },
            Action::FetchMinimumBalance(TOKEN_ACCOUNT_LEN),
        ),
        (
            DepositSolState::AwaitingRentExemption { stake_pool },
            Event::MinimumBalance(min_account_balance),
        ) => deposit_sol_finish(config, deposit, &stake_pool, Some(min_account_balance)),
        (DepositSolState::AwaitingConfirmation, Event::Submitted) => (
            DepositSolState::Finished,
            Action::Done(Outcome::Submitted),
        ),
        _ => (DepositSolState::Finished, Action::Unexpected),
    }
}

/// A deposit is handed out only after the source was seen to hold the
/// amount: from the balance onwards, a balance below the amount ends the
/// command with `NotEnoughSol` and nothing else is asked for.
pub proof fn lemma_deposit_needs_the_balance(
    config: JitoStakePoolCliConfig,
    deposit: DepositSol,
    balance: u64,
    next: DepositSolState,
    action: Action,
)
    requires
        balance < deposit.amount,
        deposit_sol_step(
            config,
            deposit,
            DepositSolState::AwaitingBalance,
            Event::Balance(balance),
            next,
            action,
        ),
    ensures
        next is Finished,
        action == Action::Fail(Error::NotEnoughSol { amount: deposit.amount, balance }),
{
}

/// Where a funding authority is configured, a planned deposit carries it as
/// its last account, and that account is the pool's SOL deposit authority.
pub proof fn lemma_planned_deposit_is_authorised(
    config: JitoStakePoolCliConfig,
    deposit: DepositSol,
    stake_pool: StakePool,
    create_token_account: bool,
)
    requires
        deposit.plan(config, stake_pool, create_token_account) is Ok,
        config.funding_authority is Some,
    ensures
        stake_pool.sol_deposit_authority matches Some(expected) && expected@
            == config.funding_authority->0@,
        deposit.deposit_instruction(config, stake_pool).accounts.last() == readonly(
            config.funding_authority->0@,
            true,
        ),
{
}

/// A planned deposit names a signer for every signature that its
/// instructions require: the source of the lamports, the fee payer, the
/// pass-through account and, where there is one, the funding authority.
pub proof fn lemma_planned_deposit_is_fully_signed(
    config: JitoStakePoolCliConfig,
    deposit: DepositSol,
    stake_pool: StakePool,
    create_token_account: bool,
)
    requires
        deposit.plan(config, stake_pool, create_token_account) is Ok,
    ensures
        deposit.plan(config, stake_pool, create_token_account)->Ok_0.is_fully_signed(),
{
    let transaction = deposit.plan(config, stake_pool, create_token_account)->Ok_0;
    let signers = transaction.signers;
    assert(signers[0] == config.fee_payer@);
    assert(signers[1] == deposit.user_sol_transfer@);
    if deposit.from is Some {
        assert(signers[2] == deposit.from->0@);
    }
    if config.funding_authority is Some {
        assert(signers[signers.len() - 1] == config.funding_authority->0@);
    }
    let last = transaction.instructions.len() - 1;
    assert(transaction.instructions[last] == deposit.deposit_instruction(config, stake_pool));
    assert forall|i: int, j: int| #[trigger]
        transaction.requires_signature(i, j) implies signers.contains(
        transaction.instructions[i].accounts[j].pubkey,
    ) by {
        if i == 0 {
            assert(j == 0);
        } else if i < last {
            assert(j == 0);
        } else {
            assert(j == 3 || j == 10);
        }
    }
}

/// A command that is over stays over: whatever it is handed, it asks for
/// nothing more.
pub proof fn lemma_deposit_sol_ends_once(
    config: JitoStakePoolCliConfig,
    deposit: DepositSol,
    event: Event,
    next: DepositSolState,
    action: Action,
)
    requires
        deposit_sol_step(config, deposit, DepositSolState::Finished, event, next, action),
    ensures
        next is Finished,
        action is Unexpected,
{
}

impl DepositSolState {
    /// An upper bound on the steps that the command still takes.
    pub open spec fn steps_left(self) -> nat {
        match self {
            DepositSolState::Initial => 6,
            DepositSolState::AwaitingBalance => 5,
            DepositSolState::AwaitingStakePool => 4,
            DepositSolState::AwaitingTokenAccount { .. } => 3,
            DepositSolState::AwaitingRentExemption { .. } => 2,
            DepositSolState::AwaitingConfirmation => 1,
            DepositSolState::Finished => 0,
        }
    }
}

/// Every step brings the command nearer to its end, so that it is over
/// after six steps at most.
pub proof fn lemma_deposit_sol_makes_progress(
    config: JitoStakePoolCliConfig,
    deposit: DepositSol,
    state: DepositSolState,
    event: Event,
    next: DepositSolState,
    action: Action,
)
    requires
        deposit_sol_step(config, deposit, state, event, next, action),
        !(state is Finished),
    ensures
        next.steps_left() < state.steps_left(),
{
}

} // verus!
