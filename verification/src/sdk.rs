//! Instruction builders for callers that hold a decoded pool: as those of
//! the command, but with the two derived addresses taken from
//! `spl_stake_pool`.

use vstd::prelude::*;
use solana_program::pubkey::Pubkey;
use crate::address::Address;
use crate::command::add_validator::add_validator_instruction;
use crate::instruction::{Instruction, InstructionView};
use crate::pda::{
    derivable, derived_address, seed_of, try_find_program_address, withdraw_authority_seeds,
    AUTHORITY_WITHDRAW,
};
use crate::state::StakePool;

verus! {

/// Seeds of the stake account of a validator in a pool, as `spl_stake_pool`
/// hands them on for a validator without a seed of its own: the vote
/// account, the pool, and an empty seed.
pub open spec fn validator_stake_seeds(
    vote_account_address: Seq<u8>,
    stake_pool_address: Seq<u8>,
) -> Seq<Seq<u8>> {
    seq![vote_account_address, stake_pool_address, Seq::<u8>::empty()]
}

/// Calls `spl_stake_pool::find_withdraw_authority_program_address`.
///
/// Trusted: the function derives from the pool's address and the text
/// `withdraw`, under the program given. It panics where those seeds derive
/// nothing, which `requires` leaves out.
#[verifier::external_body]
fn pool_find_withdraw_authority_program_address(
    program_id: &Address,
    stake_pool_address: &Address,
) -> (r: Address)
    requires
        derivable(withdraw_authority_seeds(stake_pool_address@), program_id@),
    ensures
        r@ == derived_address(withdraw_authority_seeds(stake_pool_address@), program_id@),
{
    let found = spl_stake_pool::find_withdraw_authority_program_address(
        &Pubkey::new_from_array(program_id.bytes),
        &Pubkey::new_from_array(stake_pool_address.bytes),
    );
    Address { bytes: found.0.to_bytes() }
}

/// Calls `spl_stake_pool::find_stake_program_address` without a seed.
///
/// Trusted: the function derives from the vote account, the pool's address
/// and an empty seed, under the program given. It panics where those seeds
/// derive nothing, which `requires` leaves out.
#[verifier::external_body]
fn pool_find_stake_program_address(
    program_id: &Address,
    vote_account_address: &Address,
    stake_pool_address: &Address,
) -> (r: Address)
    requires
        derivable(validator_stake_seeds(vote_account_address@, stake_pool_address@), program_id@),
    ensures
        r@ == derived_address(
            validator_stake_seeds(vote_account_address@, stake_pool_address@),
            program_id@,
        ),
{
    let found = spl_stake_pool::find_stake_program_address(
        &Pubkey::new_from_array(program_id.bytes),
        &Pubkey::new_from_array(vote_account_address.bytes),
        &Pubkey::new_from_array(stake_pool_address.bytes),
        None,
    );
    Address { bytes: found.0.to_bytes() }
}

/// Creates the instruction that adds the validator's stake account to the
/// pool. The staker and the funder sign.
pub fn add_validator_to_pool(
    program_id: &Address,
    stake_pool: &Address,
    staker: &Address,
    funder: &Address,
    stake_pool_withdraw: &Address,
    validator_list: &Address,
    stake: &Address,
    validator: &Address,
) -> (r: Instruction)
    ensures
        r@ == add_validator_instruction(
            program_id@,
            stake_pool@,
            staker@,
            funder@,
            stake_pool_withdraw@,
            validator_list@,
            stake@,
            validator@,
        ),
{
    crate::command::add_validator::add_validator_to_pool(
        program_id,
        stake_pool,
        staker,
        funder,
        stake_pool_withdraw,
        validator_list,
        stake,
        validator,
    )
}

/// The instruction that adds the validator with the vote account
/// `vote_account_address` to the pool at `stake_pool_address`.
pub open spec fn add_validator_with_vote_instruction(
    program_id: Seq<u8>,
    stake_pool: StakePool,
    stake_pool_address: Seq<u8>,
    funder: Seq<u8>,
    vote_account_address: Seq<u8>,
) -> InstructionView {
    add_validator_instruction(
        program_id,
        stake_pool_address,
        stake_pool.staker@,
        funder,
        derived_address(withdraw_authority_seeds(stake_pool_address), program_id),
        stake_pool.validator_list@,
        derived_address(
            validator_stake_seeds(vote_account_address, stake_pool_address),
            program_id,
        ),
        vote_account_address,
    )
}

/// Whether the two addresses that the instruction needs can be derived.
pub open spec fn add_validator_derivable(
    program_id: Seq<u8>,
    stake_pool_address: Seq<u8>,
    vote_account_address: Seq<u8>,
) -> bool {
    &&& derivable(withdraw_authority_seeds(stake_pool_address), program_id)
    &&& derivable(validator_stake_seeds(vote_account_address, stake_pool_address), program_id)
}

/// Creates the instruction that adds a validator, given the pool and the
/// validator's vote account.
pub fn add_validator_to_pool_with_vote(
    program_id: &Address,
    stake_pool: &StakePool,
    stake_pool_address: &Address,
    funder: &Address,
    vote_account_address: &Address,
) -> (r: Instruction)
    requires
        add_validator_derivable(program_id@, stake_pool_address@, vote_account_address@),
    ensures
        r@ == add_validator_with_vote_instruction(
            program_id@,
            *stake_pool,
            stake_pool_address@,
            funder@,
            vote_account_address@,
        ),
{
    let pool_withdraw_authority = pool_find_withdraw_authority_program_address(
        program_id,
        stake_pool_address,
    );
    let stake_account_address = pool_find_stake_program_address(
        program_id,
        vote_account_address,
        stake_pool_address,
    );
    add_validator_to_pool(
        program_id,
        stake_pool_address,
        &stake_pool.staker,
        funder,
        &pool_withdraw_authority,
        &stake_pool.validator_list,
        &stake_account_address,
        vote_account_address,
    )
}

/// As `add_validator_to_pool_with_vote`, for every input: `None` where one
/// of the two addresses cannot be derived.
pub fn try_add_validator_to_pool_with_vote(
    program_id: &Address,
    stake_pool: &StakePool,
    stake_pool_address: &Address,
    funder: &Address,
    vote_account_address: &Address,
) -> (r: Option<Instruction>)
    ensures
        r is Some == add_validator_derivable(
            program_id@,
            stake_pool_address@,
            vote_account_address@,
        ),
        r matches Some(instruction) ==> instruction@ == add_validator_with_vote_instruction(
            program_id@,
            *stake_pool,
            stake_pool_address@,
            funder@,
            vote_account_address@,
        ),
{
    let withdraw_seeds = vec![stake_pool_address.to_vec(), seed_of(&AUTHORITY_WITHDRAW)];
    let stake_seeds = vec![
        vote_account_address.to_vec(),
        stake_pool_address.to_vec(),
        Vec::new(),
    ];
    proof {
        assert(withdraw_seeds.deep_view() =~~= withdraw_authority_seeds(stake_pool_address@));
        assert(stake_seeds.deep_view() =~~= validator_stake_seeds(
            vote_account_address@,
            stake_pool_address@,
        ));
    }
    if try_find_program_address(&withdraw_seeds, program_id).is_some()
        && try_find_program_address(&stake_seeds, program_id).is_some() {
        Some(
            add_validator_to_pool_with_vote(
                program_id,
                stake_pool,
                stake_pool_address,
                funder,
                vote_account_address,
            ),
        )
    } else {
        None
    }
}

} // verus!
