//! Moving stake from the pool's reserve to a validator.

use vstd::prelude::*;
use vstd::bytes::spec_u64_to_le_bytes;
use solana_program::pubkey::Pubkey;
use crate::address::Address;
use crate::client::{get_stake_pool, get_validator_list};
use crate::command::{Action, Event, Outcome};
use crate::config::JitoStakePoolCliConfig;
use crate::error::Error;
use crate::ids::{
    stake_config_bytes, stake_pool_program_bytes, stake_pool_program_id, stake_program_bytes,
    sysvar_clock_bytes, sysvar_rent_bytes, sysvar_stake_history_bytes, system_program_bytes,
};
use crate::instruction::{
    instruction_views, readonly, writable, AccountMeta, AccountMetaView, Instruction,
    InstructionView,
};
use crate::pda::{
    derivable, derived_address, find_stake_program_address,
    find_transient_stake_program_address, find_withdraw_authority_program_address, stake_seeds,
    transient_stake_seeds, try_find_stake_program_address,
    try_find_transient_stake_program_address, try_find_withdraw_authority_program_address,
    withdraw_authority_seeds,
};
use crate::state::{stake_pool_decoding, validator_list_decoding, StakePool};
use crate::transaction::{
    address_views, checked_transaction_with_signers, send_transaction, TransactionView,
};

verus! {

/// The accounts of the instruction that increases a validator's stake, in
/// the order the program reads them. Only the staker signs.
pub open spec fn increase_validator_stake_accounts(
    stake_pool: Seq<u8>,
    staker: Seq<u8>,
    stake_pool_withdraw_authority: Seq<u8>,
    validator_list: Seq<u8>,
    reserve_stake: Seq<u8>,
    transient_stake: Seq<u8>,
    validator_stake: Seq<u8>,
    validator: Seq<u8>,
) -> Seq<AccountMetaView> {
    seq![
        readonly(stake_pool, false),
        readonly(staker, true),
        readonly(stake_pool_withdraw_authority, false),
        writable(validator_list, false),
        writable(reserve_stake, false),
        writable(transient_stake, false),
        readonly(validator_stake, false),
        readonly(validator, false),
        readonly(sysvar_clock_bytes(), false),
        readonly(sysvar_rent_bytes(), false),
        readonly(sysvar_stake_history_bytes(), false),
        readonly(stake_config_bytes(), false),
        readonly(system_program_bytes(), false),
        readonly(stake_program_bytes(), false),
    ]
}

/// The data of the instruction: its tag, then the lamports and the
/// transient seed, each as eight little-endian bytes.
pub open spec fn increase_validator_stake_data(lamports: u64, transient_stake_seed: u64) -> Seq<
    u8,
> {
    seq![4u8] + spec_u64_to_le_bytes(lamports) + spec_u64_to_le_bytes(transient_stake_seed)
}

/// The instruction that moves `lamports` from the reserve to the transient
/// stake account of a validator.
pub open spec fn increase_validator_stake_instruction(
    program_id: Seq<u8>,
    stake_pool: Seq<u8>,
    staker: Seq<u8>,
    stake_pool_withdraw_authority: Seq<u8>,
    validator_list: Seq<u8>,
    reserve_stake: Seq<u8>,
    transient_stake: Seq<u8>,
    validator_stake: Seq<u8>,
    validator: Seq<u8>,
    lamports: u64,
    transient_stake_seed: u64,
) -> InstructionView {
    InstructionView {
        program_id,
        accounts: increase_validator_stake_accounts(
            stake_pool,
            staker,
            stake_pool_withdraw_authority,
            validator_list,
            reserve_stake,
            transient_stake,
            validator_stake,
            validator,
        ),
        data: increase_validator_stake_data(lamports, transient_stake_seed),
    }
}

/// Calls `spl_stake_pool::instruction::increase_validator_stake`.
///
/// Trusted: the instruction addresses `program_id`, lists the fourteen
/// accounts of `increase_validator_stake_accounts` in that order with those
/// flags, and carries the `borsh` encoding of the `IncreaseValidatorStake`
/// variant, the fifth of the program's instructions.
#[verifier::external_body]
pub(crate) fn pool_increase_validator_stake(
    program_id: &Address,
    stake_pool: &Address,
    staker: &Address,
    stake_pool_withdraw_authority: &Address,
    validator_list: &Address,
    reserve_stake: &Address,
    transient_stake: &Address,
    validator_stake: &Address,
    validator: &Address,
    lamports: u64,
    transient_stake_seed: u64,
) -> (r: Instruction)
    ensures
        r@ == increase_validator_stake_instruction(
            program_id@,
            stake_pool@,
            staker@,
            stake_pool_withdraw_authority@,
            validator_list@,
            reserve_stake@,
            transient_stake@,
            validator_stake@,
            validator@,
            lamports,
            transient_stake_seed,
        ),
{
    let key = |a: &Address| Pubkey::new_from_array(a.bytes);
    let made = spl_stake_pool::instruction::increase_validator_stake(
        &key(program_id), &key(stake_pool), &key(staker), &key(stake_pool_withdraw_authority),
        &key(validator_list), &key(reserve_stake), &key(transient_stake), &key(validator_stake),
        &key(validator), lamports, transient_stake_seed,
    );
    let accounts = made.accounts.iter().map(
        |m| AccountMeta::from_parts(m.pubkey.to_bytes(), m.is_signer, m.is_writable),
    ).collect();
    Instruction::from_parts(made.program_id.to_bytes(), accounts, made.data)
}

/// The instruction that increases the stake of the validator with the vote
/// account `vote_account_address`: the withdraw authority, the transient
/// stake account and the validator's stake account are derived.
pub open spec fn increase_validator_stake_with_vote_instruction(
    program_id: Seq<u8>,
    stake_pool: StakePool,
    stake_pool_address: Seq<u8>,
    vote_account_address: Seq<u8>,
    lamports: u64,
    transient_stake_seed: u64,
) -> InstructionView {
    increase_validator_stake_instruction(
        program_id,
        stake_pool_address,
        stake_pool.staker@,
        derived_address(withdraw_authority_seeds(stake_pool_address), program_id),
        stake_pool.validator_list@,
        stake_pool.reserve_stake@,
        derived_address(
            transient_stake_seeds(vote_account_address, stake_pool_address, transient_stake_seed),
            program_id,
        ),
        derived_address(stake_seeds(vote_account_address, stake_pool_address), program_id),
        vote_account_address,
        lamports,
        transient_stake_seed,
    )
}

/// Whether the three addresses that the instruction needs can be derived.
pub open spec fn increase_validator_stake_derivable(
    program_id: Seq<u8>,
    stake_pool_address: Seq<u8>,
    vote_account_address: Seq<u8>,
    transient_stake_seed: u64,
) -> bool {
    &&& derivable(withdraw_authority_seeds(stake_pool_address), program_id)
    &&& derivable(
        transient_stake_seeds(vote_account_address, stake_pool_address, transient_stake_seed),
        program_id,
    )
    &&& derivable(stake_seeds(vote_account_address, stake_pool_address), program_id)
}

/// Creates the instruction that increases a validator's stake, given the
/// pool and the validator's vote account.
pub fn increase_validator_stake_with_vote(
    program_id: &Address,
    stake_pool: &StakePool,
    stake_pool_address: &Address,
    vote_account_address: &Address,
    lamports: u64,
    transient_stake_seed: u64,
) -> (r: Instruction)
    requires
        increase_validator_stake_derivable(
            program_id@,
            stake_pool_address@,
            vote_account_address@,
            transient_stake_seed,
        ),
    ensures
        r@ == increase_validator_stake_with_vote_instruction(
            program_id@,
            *stake_pool,
            stake_pool_address@,
            vote_account_address@,
            lamports,
            transient_stake_seed,
        ),
{
    let pool_withdraw_authority = find_withdraw_authority_program_address(
        program_id,
        stake_pool_address,
    ).0;
    let (transient_stake_address, _) = find_transient_stake_program_address(
        program_id,
        vote_account_address,
        stake_pool_address,
        transient_stake_seed,
    );
    let (validator_stake_address, _) = find_stake_program_address(
        program_id,
        vote_account_address,
        stake_pool_address,
    );
    pool_increase_validator_stake(
        program_id,
        stake_pool_address,
        &stake_pool.staker,
        &pool_withdraw_authority,
        &stake_pool.validator_list,
        &stake_pool.reserve_stake,
        &transient_stake_address,
        &validator_stake_address,
        vote_account_address,
        lamports,
        transient_stake_seed,
    )
}

/// As `increase_validator_stake_with_vote`, for every input: `None` where
/// one of the three addresses cannot be derived.
pub fn try_increase_validator_stake_with_vote(
    program_id: &Address,
    stake_pool: &StakePool,
    stake_pool_address: &Address,
    vote_account_address: &Address,
    lamports: u64,
    transient_stake_seed: u64,
) -> (r: Option<Instruction>)
    ensures
        r is Some == increase_validator_stake_derivable(
            program_id@,
            stake_pool_address@,
            vote_account_address@,
            transient_stake_seed,
        ),
        r matches Some(instruction) ==> instruction@
            == increase_validator_stake_with_vote_instruction(
            program_id@,
            *stake_pool,
            stake_pool_address@,
            vote_account_address@,
            lamports,
            transient_stake_seed,
        ),
{
    if try_find_withdraw_authority_program_address(program_id, stake_pool_address).is_some()
        && try_find_transient_stake_program_address(
        program_id,
        vote_account_address,
        stake_pool_address,
        transient_stake_seed,
    ).is_some() && try_find_stake_program_address(
        program_id,
        vote_account_address,
        stake_pool_address,
    ).is_some() {
        Some(
            increase_validator_stake_with_vote(
                program_id,
                stake_pool,
                stake_pool_address,
                vote_account_address,
                lamports,
                transient_stake_seed,
            ),
        )
    } else {
        None
    }
}

/// Where the command stands.
#[derive(Clone, Copy, Debug)]
pub enum IncreaseValidatorStakeState {
    /// Nothing has been done.
    Initial,
    /// The stake pool's account has been asked for.
    AwaitingStakePool,
    /// The validator list of `stake_pool` has been asked for.
    AwaitingValidatorList { stake_pool: StakePool },
    /// The transaction has been handed out.
    AwaitingConfirmation,
    /// The command is over.
    Finished,
}

/// The transaction of the command: one instruction, paid for by the fee
/// payer and signed by the fee payer and the staker.
pub open spec fn increase_validator_stake_transaction(
    config: JitoStakePoolCliConfig,
    stake_pool: StakePool,
    stake_pool_address: Seq<u8>,
    vote_account: Seq<u8>,
    lamports: u64,
    transient_stake_seed: u64,
) -> TransactionView {
    TransactionView {
        fee_payer: config.fee_payer@,
        instructions: seq![
            increase_validator_stake_with_vote_instruction(
                stake_pool_program_bytes(),
                stake_pool,
                stake_pool_address,
                vote_account,
                lamports,
                transient_stake_seed,
            ),
        ],
        signers: seq![config.fee_payer@, config.staker@],
    }
}

/// What the command does with the data of the pool's account: it asks for
/// the pool's validator list, or fails where the data is no stake pool.
pub open spec fn increase_on_stake_pool(
    stake_pool_address: Address,
    data: Seq<u8>,
    next: IncreaseValidatorStakeState,
    action: Action,
) -> bool {
    match stake_pool_decoding(data) {
        Some(stake_pool) => {
            &&& next == IncreaseValidatorStakeState::AwaitingValidatorList { stake_pool }
            &&& action == Action::FetchAccount(stake_pool.validator_list)
        },
        None => {
            &&& next is Finished
            &&& action matches Action::Fail(Error::InvalidStakePool { address, .. })
            &&& address == stake_pool_address
        },
    }
}

/// What the command does with the data of the validator list: it fails
/// where the list does not hold the vote account; otherwise it hands out
/// the transaction, with the transient seed of the validator's entry.
pub open spec fn increase_on_validator_list(
    config: JitoStakePoolCliConfig,
    stake_pool_address: Address,
    vote_account: Address,
    lamports: u64,
    stake_pool: StakePool,
    data: Seq<u8>,
    next: IncreaseValidatorStakeState,
    action: Action,
) -> bool {
    match validator_list_decoding(data) {
        None => {
            &&& next is Finished
            &&& action matches Action::Fail(Error::InvalidValidatorList { address, .. })
            &&& address == stake_pool.validator_list
        },
        Some(list) => match list.find(vote_account@) {
            None => {
                &&& next is Finished
                &&& action == Action::Fail(Error::VoteAccountNotFound)
            },
            Some(info) => {
                if !increase_validator_stake_derivable(
                    stake_pool_program_bytes(),
                    stake_pool_address@,
                    vote_account@,
                    info.transient_seed_suffix,
                ) {
                    &&& next is Finished
                    &&& action == Action::Fail(Error::NoProgramAddress)
                } else {
                    &&& next is AwaitingConfirmation
                    &&& action.submits(
                        increase_validator_stake_transaction(
                            config,
                            stake_pool,
                            stake_pool_address@,
                            vote_account@,
                            lamports,
                            info.transient_seed_suffix,
                        ),
                        config.dry_run,
                    )
                }
            },
        },
    }
}

/// One step of the command: what `next` and `action` must be for `state`
/// and `event`.
pub open spec fn increase_validator_stake_step(
    config: JitoStakePoolCliConfig,
    stake_pool_address: Address,
    vote_account: Address,
    lamports: u64,
    state: IncreaseValidatorStakeState,
    event: Event,
    next: IncreaseValidatorStakeState,
    action: Action,
) -> bool {
    match (state, event) {
        (IncreaseValidatorStakeState::Initial, Event::Start) => {
            &&& next is AwaitingStakePool
            &&& action == Action::FetchAccount(stake_pool_address)
        },
        (IncreaseValidatorStakeState::AwaitingStakePool, Event::AccountData(data)) => {
            increase_on_stake_pool(stake_pool_address, data@, next, action)
        },
        (
            IncreaseValidatorStakeState::AwaitingValidatorList { stake_pool },
            Event::AccountData(data),
        ) => increase_on_validator_list(
            config,
            stake_pool_address,
            vote_account,
            lamports,
            stake_pool,
            data@,
            next,
            action,
        ),
        (IncreaseValidatorStakeState::AwaitingConfirmation, Event::Submitted) => {
            &&& next is Finished
            &&& action == Action::Done(Outcome::Submitted)
        },
        _ => {
            &&& next is Finished
            &&& action is Unexpected
        },
    }
}

/// Moves `lamports` from the reserve of the pool at `stake_pool_address` to
/// the validator with the vote account `vote_account`, one step at a time.
///
/// The caller starts with `IncreaseValidatorStakeState::Initial` and
/// `Event::Start`, does what each action asks and hands the result back with
/// the state that came with the action, until the action is `Done`, `Fail`
/// or `Unexpected`.
pub fn command_increase_validator_stake(
    config: &JitoStakePoolCliConfig,
    stake_pool_address: &Address,
    vote_account: &Address,
    lamports: u64,
    state: IncreaseValidatorStakeState,
    event: Event,
) -> (r: (IncreaseValidatorStakeState, Action))
    ensures
        increase_validator_stake_step(
            *config,
            *stake_pool_address,
            *vote_account,
            lamports,
            state,
            event,
            r.0,
            r.1,
        ),
{
    match (state, event) {
        (IncreaseValidatorStakeState::Initial, Event::Start) => (
            IncreaseValidatorStakeState::AwaitingStakePool,
            Action::FetchAccount(*stake_pool_address),
        ),
        (IncreaseValidatorStakeState::AwaitingStakePool, Event::AccountData(data)) => {
            match get_stake_pool(stake_pool_address, &data) {
                Ok(stake_pool) => (
                    IncreaseValidatorStakeState::AwaitingValidatorList { stake_pool },
                    Action::FetchAccount(stake_pool.validator_list),
                ),
                Err(e) => (IncreaseValidatorStakeState::Finished, Action::Fail(e)),
            }
        },
        (
            IncreaseValidatorStakeState::AwaitingValidatorList { stake_pool },
            Event::AccountData(data),
        ) => {
            let validator_list = match get_validator_list(&stake_pool.validator_list, &data) {
                Ok(validator_list) => validator_list,
                Err(e) => {
                    return (IncreaseValidatorStakeState::Finished, Action::Fail(e));
                },
            };
            let validator_stake_info = match validator_list.find(vote_account) {
                Some(info) => info,
                None => {
                    return (
                        IncreaseValidatorStakeState::Finished,
                        Action::Fail(Error::VoteAccountNotFound),
                    );
                },
            };
            let seed: u64 = validator_stake_info.transient_seed_suffix;
            let instruction = try_increase_validator_stake_with_vote(
                &stake_pool_program_id(),
                &stake_pool,
                stake_pool_address,
                vote_account,
                lamports,
                seed,
            );
            match instruction {
                None => (
                    IncreaseValidatorStakeState::Finished,
                    Action::Fail(Error::NoProgramAddress),
                ),
                Some(instruction) => {
                    let ghost expected = increase_validator_stake_transaction(
                        *config,
                        stake_pool,
                        stake_pool_address@,
                        vote_account@,
                        lamports,
                        seed,
                    );
                    let signers = vec![config.fee_payer, config.staker];
                    let instructions = vec![instruction];
                    assert(address_views(signers@) =~= expected.signers);
                    assert(instruction_views(instructions@) =~= expected.instructions);
                    let transaction = checked_transaction_with_signers(
                        config,
                        instructions,
                        signers,
                    );
                    (
                        IncreaseValidatorStakeState::AwaitingConfirmation,
                        Action::Submit(send_transaction(config, transaction)),
                    )
                },
            }
        },
        (IncreaseValidatorStakeState::AwaitingConfirmation, Event::Submitted) => (
            IncreaseValidatorStakeState::Finished,
            Action::Done(Outcome::Submitted),
        ),
        _ => (IncreaseValidatorStakeState::Finished, Action::Unexpected),
    }
}

/// In the instruction of the command the staker signs, and nobody else.
pub proof fn lemma_increase_validator_stake_is_signed_by_the_staker(
    program_id: Seq<u8>,
    stake_pool: StakePool,
    stake_pool_address: Seq<u8>,
    vote_account_address: Seq<u8>,
    lamports: u64,
    transient_stake_seed: u64,
    who: Seq<u8>,
)
    ensures
        increase_validator_stake_with_vote_instruction(
            program_id,
            stake_pool,
            stake_pool_address,
            vote_account_address,
            lamports,
            transient_stake_seed,
        ).requires_signature_of(who) <==> who == stake_pool.staker@,
{
    let instruction = increase_validator_stake_with_vote_instruction(
        program_id,
        stake_pool,
        stake_pool_address,
        vote_account_address,
        lamports,
        transient_stake_seed,
    );
    assert(instruction.accounts[1].is_signer);
    assert(instruction.accounts[1].pubkey == stake_pool.staker@);
}

/// Where the staker of the configuration is the staker of the pool, the
/// transaction of the command names a signer for every signature that its
/// instruction requires.
pub proof fn lemma_increase_validator_stake_transaction_is_fully_signed(
    config: JitoStakePoolCliConfig,
    stake_pool: StakePool,
    stake_pool_address: Seq<u8>,
    vote_account: Seq<u8>,
    lamports: u64,
    transient_stake_seed: u64,
)
    requires
        config.staker@ == stake_pool.staker@,
    ensures
        increase_validator_stake_transaction(
            config,
            stake_pool,
            stake_pool_address,
            vote_account,
            lamports,
            transient_stake_seed,
        ).is_fully_signed(),
{
    let transaction = increase_validator_stake_transaction(
        config,
        stake_pool,
        stake_pool_address,
        vote_account,
        lamports,
        transient_stake_seed,
    );
    assert forall|i: int, j: int| #[trigger]
        transaction.requires_signature(i, j) implies transaction.signers.contains(
        transaction.instructions[i].accounts[j].pubkey,
    ) by {
        assert(i == 0);
        assert(j == 1);
        assert(transaction.signers[1] == config.staker@);
    }
}

/// A command that is over stays over: whatever it is handed, it asks for
/// nothing more.
pub proof fn lemma_increase_validator_stake_ends_once(
    config: JitoStakePoolCliConfig,
    stake_pool_address: Address,
    vote_account: Address,
    lamports: u64,
    event: Event,
    next: IncreaseValidatorStakeState,
    action: Action,
)
    requires
        increase_validator_stake_step(config, stake_pool_address, vote_account, lamports, IncreaseValidatorStakeState::Finished, event, next, action),
    ensures
        next is Finished,
        action is Unexpected,
{
}

impl IncreaseValidatorStakeState {
    /// An upper bound on the steps that the command still takes.
    pub open spec fn steps_left(self) -> nat {
        match self {
            IncreaseValidatorStakeState::Initial => 4,
            IncreaseValidatorStakeState::AwaitingStakePool => 3,
            IncreaseValidatorStakeState::AwaitingValidatorList { .. } => 2,
            IncreaseValidatorStakeState::AwaitingConfirmation => 1,
            IncreaseValidatorStakeState::Finished => 0,
        }
    }
}

/// Every step brings the command nearer to its end, so that it is over
/// after four steps at most.
pub proof fn lemma_increase_validator_stake_makes_progress(
    config: JitoStakePoolCliConfig,
    stake_pool_address: Address,
    vote_account: Address,
    lamports: u64,
    state: IncreaseValidatorStakeState,
    event: Event,
    next: IncreaseValidatorStakeState,
    action: Action,
)
    requires
        increase_validator_stake_step(
            config,
            stake_pool_address,
            vote_account,
            lamports,
            state,
            event,
            next,
            action,
        ),
        !(state is Finished),
    ensures
        next.steps_left() < state.steps_left(),
{
}

} // verus!
