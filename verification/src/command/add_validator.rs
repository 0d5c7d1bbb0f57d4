//! Adding a validator to the pool.

use vstd::prelude::*;
use crate::address::{address_parsing, parse_pubkey, Address};
use crate::client::{get_stake_pool, get_validator_list};
use crate::command::{Action, Event, Outcome};
use crate::config::JitoStakePoolCliConfig;
use crate::error::Error;
use crate::ids::{
    stake_config_bytes, stake_config_id, stake_pool_program_bytes, stake_pool_program_id,
    stake_program_bytes, stake_program_id, sysvar_clock_bytes, sysvar_clock_id, sysvar_rent_bytes,
    sysvar_rent_id, sysvar_stake_history_bytes, sysvar_stake_history_id, system_program_bytes,
    system_program_id,
};
use crate::instruction::{
    instruction_views, readonly, writable, AccountMeta, AccountMetaView, Instruction,
    InstructionView,
};
use crate::pda::{
    derivable, derived_address, find_stake_program_address,
    find_withdraw_authority_program_address, stake_seeds, try_find_stake_program_address,
    try_find_withdraw_authority_program_address, withdraw_authority_seeds,
};
use crate::state::{stake_pool_decoding, validator_list_decoding, StakePool};
use crate::transaction::{
    address_views, checked_transaction_with_signers, send_transaction, TransactionView,
};

verus! {

/// Arguments of the command.
#[derive(Clone, Debug)]
pub struct AddValidatorArgs {
    /// Stake pool address
    pub pool: String,
    /// The validator vote account that the stake is delegated to
    pub vote_account: String,
}

impl AddValidatorArgs {
    /// The address of the pool and the address of the vote account that
    /// the arguments spell. The pool's address is read first.
    pub fn addresses(&self) -> (r: Result<(Address, Address), Error>)
        ensures
            match (address_parsing(self.pool@), address_parsing(self.vote_account@)) {
                (Some(pool), Some(vote)) => r matches Ok(found) && found.0@ == pool && found.1@
                    == vote,
                _ => r == Err::<(Address, Address), Error>(Error::InvalidAddress),
            },
    {
        let stake_pool_address = match parse_pubkey(self.pool.as_str()) {
            Ok(address) => address,
            Err(e) => {
                return Err(e);
            },
        };
        let vote_account_address = match parse_pubkey(self.vote_account.as_str()) {
            Ok(address) => address,
            Err(e) => {
                return Err(e);
            },
        };
        Ok((stake_pool_address, vote_account_address))
    }
}

/// Maximum amount of validator stake accounts to update per
/// `UpdateValidatorListBalance` instruction, based on compute limits
pub const MAX_VALIDATORS_TO_UPDATE: usize = 5;

/// The maximum number of transient stake accounts respecting
/// transaction account limits.
pub const MAX_TRANSIENT_STAKE_ACCOUNTS: usize = 10;

/// The accounts of the instruction that adds a validator, in the order the
/// program reads them.
pub open spec fn add_validator_accounts(
    stake_pool: Seq<u8>,
    staker: Seq<u8>,
    funder: Seq<u8>,
    stake_pool_withdraw: Seq<u8>,
    validator_list: Seq<u8>,
    stake: Seq<u8>,
    validator: Seq<u8>,
) -> Seq<AccountMetaView> {
    seq![
        writable(stake_pool, false),
        readonly(staker, true),
        writable(funder, true),
        readonly(stake_pool_withdraw, false),
        writable(validator_list, false),
        writable(stake, false),
        readonly(validator, false),
        readonly(sysvar_rent_bytes(), false),
        readonly(sysvar_clock_bytes(), false),
        readonly(sysvar_stake_history_bytes(), false),
        readonly(stake_config_bytes(), false),
        readonly(system_program_bytes(), false),
        readonly(stake_program_bytes(), false),
    ]
}

/// The data of the instruction that adds a validator: the tag of the
/// instruction, which carries no fields.
pub open spec fn add_validator_data() -> Seq<u8> {
    seq![1u8]
}

/// The instruction that adds a validator to a pool.
pub open spec fn add_validator_instruction(
    program_id: Seq<u8>,
    stake_pool: Seq<u8>,
    staker: Seq<u8>,
    funder: Seq<u8>,
    stake_pool_withdraw: Seq<u8>,
    validator_list: Seq<u8>,
    stake: Seq<u8>,
    validator: Seq<u8>,
) -> InstructionView {
    InstructionView {
        program_id,
        accounts: add_validator_accounts(
            stake_pool,
            staker,
            funder,
            stake_pool_withdraw,
            validator_list,
            stake,
            validator,
        ),
        data: add_validator_data(),
    }
}

/// Creates the instruction that adds the validator's stake account to the
/// pool. The staker and the funder sign.
pub fn add_validator_to_pool(
    program_id: &Address,
    stake_pool: &Address,
    staker: &Address,
    funder: &Address,
    stake_pool_withdraw: &Address,
    validator_list: &Address,
    stake: &Address,
    validator: &Address,
) -> (r: Instruction)
    ensures
        r@ == add_validator_instruction(
            program_id@,
            stake_pool@,
            staker@,
            funder@,
            stake_pool_withdraw@,
            validator_list@,
            stake@,
            validator@,
        ),
{
    let accounts = vec![
        AccountMeta::new(*stake_pool, false),
        AccountMeta::new_readonly(*staker, true),
        AccountMeta::new(*funder, true),
        AccountMeta::new_readonly(*stake_pool_withdraw, false),
        AccountMeta::new(*validator_list, false),
        AccountMeta::new(*stake, false),
        AccountMeta::new_readonly(*validator, false),
        AccountMeta::new_readonly(sysvar_rent_id(), false),
        AccountMeta::new_readonly(sysvar_clock_id(), false),
        AccountMeta::new_readonly(sysvar_stake_history_id(), false),
        AccountMeta::new_readonly(stake_config_id(), false),
        AccountMeta::new_readonly(system_program_id(), false),
        AccountMeta::new_readonly(stake_program_id(), false),
    ];
    let r = Instruction { program_id: *program_id, accounts, data: vec![1u8] };
    assert(r@.accounts =~= add_validator_accounts(
        stake_pool@,
        staker@,
        funder@,
        stake_pool_withdraw@,
        validator_list@,
        stake@,
        validator@,
    ));
    assert(r@.data =~= add_validator_data());
    r
}

/// The instruction that adds the validator with the vote account
/// `vote_account_address` to the pool at `stake_pool_address`: the withdraw
/// authority and the validator's stake account are derived.
pub open spec fn add_validator_with_vote_instruction(
    program_id: Seq<u8>,
    stake_pool: StakePool,
    stake_pool_address: Seq<u8>,
    funder: Seq<u8>,
    vote_account_address: Seq<u8>,
) -> InstructionView {
    add_validator_instruction(
        program_id,
        stake_pool_address,
        stake_pool.staker@,
        funder,
        derived_address(withdraw_authority_seeds(stake_pool_address), program_id),
        stake_pool.validator_list@,
        derived_address(stake_seeds(vote_account_address, stake_pool_address), program_id),
        vote_account_address,
    )
}

/// Whether the two addresses that the instruction needs can be derived.
pub open spec fn add_validator_derivable(
    program_id: Seq<u8>,
    stake_pool_address: Seq<u8>,
    vote_account_address: Seq<u8>,
) -> bool {
    &&& derivable(withdraw_authority_seeds(stake_pool_address), program_id)
    &&& derivable(stake_seeds(vote_account_address, stake_pool_address), program_id)
}

/// Creates the instruction that adds a validator, given the pool and the
/// validator's vote account.
pub fn add_validator_to_pool_with_vote(
    program_id: &Address,
    stake_pool: &StakePool,
    stake_pool_address: &Address,
    funder: &Address,
    vote_account_address: &Address,
) -> (r: Instruction)
    requires
        add_validator_derivable(program_id@, stake_pool_address@, vote_account_address@),
    ensures
        r@ == add_validator_with_vote_instruction(
            program_id@,
            *stake_pool,
            stake_pool_address@,
            funder@,
            vote_account_address@,
        ),
{
    let pool_withdraw_authority = find_withdraw_authority_program_address(
        program_id,
        stake_pool_address,
    ).0;
    let (stake_account_address, _) = find_stake_program_address(
        program_id,
        vote_account_address,
        stake_pool_address,
    );
    add_validator_to_pool(
        program_id,
        stake_pool_address,
        &stake_pool.staker,
        funder,
        &pool_withdraw_authority,
        &stake_pool.validator_list,
        &stake_account_address,
        vote_account_address,
    )
}

/// As `add_validator_to_pool_with_vote`, for every input: `None` where one
/// of the two addresses cannot be derived.
pub fn try_add_validator_to_pool_with_vote(
    program_id: &Address,
    stake_pool: &StakePool,
    stake_pool_address: &Address,
    funder: &Address,
    vote_account_address: &Address,
) -> (r: Option<Instruction>)
    ensures
        r is Some == add_validator_derivable(
            program_id@,
            stake_pool_address@,
            vote_account_address@,
        ),
        r matches Some(instruction) ==> instruction@ == add_validator_with_vote_instruction(
            program_id@,
            *stake_pool,
            stake_pool_address@,
            funder@,
            vote_account_address@,
        ),
{
    if try_find_withdraw_authority_program_address(program_id, stake_pool_address).is_some()
        && try_find_stake_program_address(
        program_id,
        vote_account_address,
        stake_pool_address,
    ).is_some() {
        Some(
            add_validator_to_pool_with_vote(
                program_id,
                stake_pool,
                stake_pool_address,
                funder,
                vote_account_address,
            ),
        )
    } else {
        None
    }
}

/// Where the command stands.
#[derive(Clone, Copy, Debug)]
pub enum AddValidatorState {
    /// Nothing has been done.
    Initial,
    /// The stake pool's account has been asked for. The validator's stake
    /// account will be at `stake_account_address`.
    AwaitingStakePool { stake_account_address: Address },
    /// The validator list of `stake_pool` has been asked for.
    AwaitingValidatorList { stake_pool: StakePool },
    /// The transaction has been handed out.
    AwaitingConfirmation,
    /// The command is over.
    Finished,
}

/// The transaction of the command: one instruction, paid for by the fee
/// payer, who also funds the stake account, and signed by the fee payer and
/// the staker.
pub open spec fn add_validator_transaction(
    config: JitoStakePoolCliConfig,
    stake_pool: StakePool,
    stake_pool_address: Seq<u8>,
    vote_account: Seq<u8>,
) -> TransactionView {
    TransactionView {
        fee_payer: config.fee_payer@,
        instructions: seq![
            add_validator_with_vote_instruction(
                stake_pool_program_bytes(),
                stake_pool,
                stake_pool_address,
                config.fee_payer@,
                vote_account,
            ),
        ],
        signers: seq![config.fee_payer@, config.staker@],
    }
}

/// What the command does at the start: it derives the validator's stake
/// account and asks for the pool's account.
pub open spec fn vsa_add_on_start(
    stake_pool_address: Address,
    vote_account: Address,
    next: AddValidatorState,
    action: Action,
) -> bool {
    let seeds = stake_seeds(vote_account@, stake_pool_address@);
    if derivable(seeds, stake_pool_program_bytes()) {
        &&& next matches AddValidatorState::AwaitingStakePool { stake_account_address }
        &&& stake_account_address@ == derived_address(seeds, stake_pool_program_bytes())
        &&& action == Action::FetchAccount(stake_pool_address)
    } else {
        &&& next is Finished
        &&& action == Action::Fail(Error::NoProgramAddress)
    }
}

/// What the command does with the data of the pool's account: it asks for
/// the pool's validator list, or fails where the data is no stake pool.
pub open spec fn vsa_add_on_stake_pool(
    stake_pool_address: Address,
    data: Seq<u8>,
    next: AddValidatorState,
    action: Action,
) -> bool {
    match stake_pool_decoding(data) {
        Some(stake_pool) => {
            &&& next == AddValidatorState::AwaitingValidatorList { stake_pool }
            &&& action == Action::FetchAccount(stake_pool.validator_list)
        },
        None => {
            &&& next is Finished
            &&& action matches Action::Fail(Error::InvalidStakePool { address, .. })
            &&& address == stake_pool_address
        },
    }
}

/// What the command does with the data of the validator list: where the
/// list already holds the vote account it ends without a transaction;
/// otherwise it hands out the transaction that adds the validator.
pub open spec fn vsa_add_on_validator_list(
    config: JitoStakePoolCliConfig,
    stake_pool_address: Address,
    vote_account: Address,
    stake_pool: StakePool,
    data: Seq<u8>,
    next: AddValidatorState,
    action: Action,
) -> bool {
    match validator_list_decoding(data) {
        None => {
            &&& next is Finished
            &&& action matches Action::Fail(Error::InvalidValidatorList { address, .. })
            &&& address == stake_pool.validator_list
        },
        Some(list) => {
            if list.contains(vote_account@) {
                &&& next is Finished
                &&& action == Action::Done(Outcome::AlreadySatisfied)
            } else if !add_validator_derivable(
                stake_pool_program_bytes(),
                stake_pool_address@,
                vote_account@,
            ) {
                &&& next is Finished
                &&& action == Action::Fail(Error::NoProgramAddress)
            } else {
                &&& next is AwaitingConfirmation
                &&& action.submits(
                    add_validator_transaction(
                        config,
                        stake_pool,
                        stake_pool_address@,
                        vote_account@,
                    ),
                    config.dry_run,
                )
            }
        },
    }
}

/// One step of the command: what `next` and `action` must be for `state`
/// and `event`.
pub open spec fn vsa_add_step(
    config: JitoStakePoolCliConfig,
    stake_pool_address: Address,
    vote_account: Address,
    state: AddValidatorState,
    event: Event,
    next: AddValidatorState,
    action: Action,
) -> bool {
    match (state, event) {
        (AddValidatorState::Initial, Event::Start) => vsa_add_on_start(
            stake_pool_address,
            vote_account,
            next,
            action,
        ),
        (AddValidatorState::AwaitingStakePool { .. }, Event::AccountData(data)) => {
            vsa_add_on_stake_pool(stake_pool_address, data@, next, action)
        },
        (AddValidatorState::AwaitingValidatorList { stake_pool }, Event::AccountData(data)) => {
            vsa_add_on_validator_list(
                config,
                stake_pool_address,
                vote_account,
                stake_pool,
                data@,
                next,
                action,
            )
        },
        (AddValidatorState::AwaitingConfirmation, Event::Submitted) => {
            &&& next is Finished
            &&& action == Action::Done(Outcome::Submitted)
        },
        _ => {
            &&& next is Finished
            &&& action is Unexpected
        },
    }
}

/// Adds the validator with the vote account `vote_account` to the pool at
/// `stake_pool_address`, one step at a time.
///
/// The caller starts with `AddValidatorState::Initial` and `Event::Start`,
/// does what each action asks and hands the result back with the state that
/// came with the action, until the action is `Done`, `Fail` or `Unexpected`.
pub fn command_vsa_add(
    config: &JitoStakePoolCliConfig,
    stake_pool_address: &Address,
    vote_account: &Address,
    state: AddValidatorState,
    event: Event,
) -> (r: (AddValidatorState, Action))
    ensures
        vsa_add_step(*config, *stake_pool_address, *vote_account, state, event, r.0, r.1),
{
    match (state, event) {
        (AddValidatorState::Initial, Event::Start) => {
            let program_id = stake_pool_program_id();
            match try_find_stake_program_address(&program_id, vote_account, stake_pool_address) {
                Some((stake_account_address, _)) => (
                    AddValidatorState::AwaitingStakePool { stake_account_address },
                    Action::FetchAccount(*stake_pool_address),
                ),
                None => (AddValidatorState::Finished, Action::Fail(Error::NoProgramAddress)),
            }
        },
        (AddValidatorState::AwaitingStakePool { .. }, Event::AccountData(data)) => {
            match get_stake_pool(stake_pool_address, &data) {
                Ok(stake_pool) => (
                    AddValidatorState::AwaitingValidatorList { stake_pool },
                    Action::FetchAccount(stake_pool.validator_list),
                ),
                Err(e) => (AddValidatorState::Finished, Action::Fail(e)),
            }
        },
        (AddValidatorState::AwaitingValidatorList { stake_pool }, Event::AccountData(data)) => {
            match get_validator_list(&stake_pool.validator_list, &data) {
                Err(e) => (AddValidatorState::Finished, Action::Fail(e)),
                Ok(validator_list) => {
                    if validator_list.contains(vote_account) {
                        return (
                            AddValidatorState::Finished,
                            Action::Done(Outcome::AlreadySatisfied),
                        );
                    }
                    let instruction = try_add_validator_to_pool_with_vote(
                        &stake_pool_program_id(),
                        &stake_pool,
                        stake_pool_address,
                        &config.fee_payer,
                        vote_account,
                    );
                    match instruction {
                        None => (
                            AddValidatorState::Finished,
                            Action::Fail(Error::NoProgramAddress),
                        ),
                        Some(instruction) => {
                            let ghost expected = add_validator_transaction(
                                *config,
                                stake_pool,
                                stake_pool_address@,
                                vote_account@,
                            );
                            let signers = vec![config.fee_payer, config.staker];
                            let instructions = vec![instruction];
                            assert(address_views(signers@) =~= expected.signers);
                            assert(instruction_views(instructions@) =~= expected.instructions);
                            let transaction = checked_transaction_with_signers(
                                config,
                                instructions,
                                signers,
                            );
                            (
                                AddValidatorState::AwaitingConfirmation,
                                Action::Submit(send_transaction(config, transaction)),
                            )
                        },
                    }
                },
            }
        },
        (AddValidatorState::AwaitingConfirmation, Event::Submitted) => (
            AddValidatorState::Finished,
            Action::Done(Outcome::Submitted),
        ),
        _ => (AddValidatorState::Finished, Action::Unexpected),
    }
}

/// Adding a validator that the pool already holds changes nothing: whatever
/// the configuration, a validator list that holds the vote account ends the
/// command well and without a transaction.
pub proof fn lemma_add_validator_is_idempotent(
    config: JitoStakePoolCliConfig,
    stake_pool_address: Address,
    vote_account: Address,
    stake_pool: StakePool,
    data: Vec<u8>,
    next: AddValidatorState,
    action: Action,
)
    requires
        validator_list_decoding(data@) matches Some(list) && list.contains(vote_account@),
        vsa_add_step(
            config,
            stake_pool_address,
            vote_account,
            AddValidatorState::AwaitingValidatorList { stake_pool },
            Event::AccountData(data),
            next,
            action,
        ),
    ensures
        next is Finished,
        action == Action::Done(Outcome::AlreadySatisfied),
        !action.is_submission(),
{
}

/// A transaction is handed out only for a validator list that decodes and
/// does not hold the vote account, and it is the transaction of the command.
pub proof fn lemma_add_validator_submits_only_new_validators(
    config: JitoStakePoolCliConfig,
    stake_pool_address: Address,
    vote_account: Address,
    state: AddValidatorState,
    event: Event,
    next: AddValidatorState,
    action: Action,
)
    requires
        vsa_add_step(config, stake_pool_address, vote_account, state, event, next, action),
        action.is_submission(),
    ensures
        state is AwaitingValidatorList,
        event matches Event::AccountData(data) && validator_list_decoding(data@) matches Some(
            list,
        ) && !list.contains(vote_account@),
        action.submits(
            add_validator_transaction(
                config,
                state->stake_pool,
                stake_pool_address@,
                vote_account@,
            ),
            config.dry_run,
        ),
{
}

/// The instruction that adds a validator asks for two signatures: the
/// staker's and the funder's.
pub proof fn lemma_add_validator_is_signed_by_staker_and_funder(
    program_id: Seq<u8>,
    stake_pool: StakePool,
    stake_pool_address: Seq<u8>,
    funder: Seq<u8>,
    vote_account_address: Seq<u8>,
    who: Seq<u8>,
)
    ensures
        add_validator_with_vote_instruction(
            program_id,
            stake_pool,
            stake_pool_address,
            funder,
            vote_account_address,
        ).requires_signature_of(who) <==> (who == stake_pool.staker@ || who == funder),
{
    let instruction = add_validator_with_vote_instruction(
        program_id,
        stake_pool,
        stake_pool_address,
        funder,
        vote_account_address,
    );
    assert(instruction.accounts[1].is_signer && instruction.accounts[1].pubkey
        == stake_pool.staker@);
    assert(instruction.accounts[2].is_signer && instruction.accounts[2].pubkey == funder);
}

/// Where the staker of the configuration is the staker of the pool, the
/// transaction of the command names a signer for every signature that its
/// instruction requires.
pub proof fn lemma_add_validator_transaction_is_fully_signed(
    config: JitoStakePoolCliConfig,
    stake_pool: StakePool,
    stake_pool_address: Seq<u8>,
    vote_account: Seq<u8>,
)
    requires
        config.staker@ == stake_pool.staker@,
    ensures
        add_validator_transaction(
            config,
            stake_pool,
            stake_pool_address,
            vote_account,
        ).is_fully_signed(),
{
    let transaction = add_validator_transaction(
        config,
        stake_pool,
        stake_pool_address,
        vote_account,
    );
    assert forall|i: int, j: int| #[trigger]
        transaction.requires_signature(i, j) implies transaction.signers.contains(
        transaction.instructions[i].accounts[j].pubkey,
    ) by {
        assert(i == 0);
        assert(j == 1 || j == 2);
        assert(transaction.signers[1] == config.staker@);
        assert(transaction.signers[0] == config.fee_payer@);
    }
}

/// A command that is over stays over: whatever it is handed, it asks for
/// nothing more.
pub proof fn lemma_vsa_add_ends_once(
    config: JitoStakePoolCliConfig,
    stake_pool_address: Address,
    vote_account: Address,
    event: Event,
    next: AddValidatorState,
    action: Action,
)
    requires
        vsa_add_step(config, stake_pool_address, vote_account, AddValidatorState::Finished, event, next, action),
    ensures
        next is Finished,
        action is Unexpected,
{
}

impl AddValidatorState {
    /// An upper bound on the steps that the command still takes.
    pub open spec fn steps_left(self) -> nat {
        match self {
            AddValidatorState::Initial => 4,
            AddValidatorState::AwaitingStakePool { .. } => 3,
            AddValidatorState::AwaitingValidatorList { .. } => 2,
            AddValidatorState::AwaitingConfirmation => 1,
            AddValidatorState::Finished => 0,
        }
    }
}

/// Every step brings the command nearer to its end, so that it is over
/// after four steps at most.
pub proof fn lemma_vsa_add_makes_progress(
    config: JitoStakePoolCliConfig,
    stake_pool_address: Address,
    vote_account: Address,
    state: AddValidatorState,
    event: Event,
    next: AddValidatorState,
    action: Action,
)
    requires
        vsa_add_step(config, stake_pool_address, vote_account, state, event, next, action),
        !(state is Finished),
    ensures
        next.steps_left() < state.steps_left(),
{
}

} // verus!
