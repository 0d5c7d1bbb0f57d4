//! Program-derived addresses of the stake pool program.
//!
//! A derived address is a pure function of the seeds and of the program's
//! address. The search for it belongs to `solana_program`; what this module
//! fixes is which seeds each of the pool's accounts is derived from.

use vstd::prelude::*;
use vstd::bytes::spec_u64_to_le_bytes;
use vstd::bytes::u64_to_le_bytes;
use vstd::pervasive::unreached;
use solana_program::pubkey::Pubkey;
use crate::address::Address;

verus! {

/// The address that `seeds` derive under the program at `program_id`, with
/// the bump seed that completes them, or `None` where the search finds no
/// bump seed.
pub uninterp spec fn program_address(seeds: Seq<Seq<u8>>, program_id: Seq<u8>) -> Option<
    (Seq<u8>, u8),
>;

/// Calls `Pubkey::try_find_program_address` of `solana_program`.
///
/// Trusted: the call returns the same answer for the same seeds and program
/// address, which `program_address` names. It does not panic: seeds that are
/// too many or too long give `None`.
#[verifier::external_body]
fn pubkey_try_find_program_address(seeds: &Vec<Vec<u8>>, program_id: &Address) -> (r: Option<
    (Address, u8),
>)
    ensures
        r matches Some(found) ==> program_address(seeds.deep_view(), program_id@) == Some(
            (found.0@, found.1),
        ),
        r is None ==> program_address(seeds.deep_view(), program_id@) is None,
{
    let parts: Vec<&[u8]> = seeds.iter().map(|seed| seed.as_slice()).collect();
    match Pubkey::try_find_program_address(&parts, &Pubkey::new_from_array(program_id.bytes)) {
        Some((address, bump)) => Some((Address { bytes: address.to_bytes() }, bump)),
        None => None,
    }
}

/// Seed for deposit authority seed: the text `deposit`.
pub const AUTHORITY_DEPOSIT: [u8; 7] = [100u8, 101u8, 112u8, 111u8, 115u8, 105u8, 116u8];

/// Seed for withdraw authority seed: the text `withdraw`.
pub const AUTHORITY_WITHDRAW: [u8; 8] = [119u8, 105u8, 116u8, 104u8, 100u8, 114u8, 97u8, 119u8];

/// Seed for transient stake account: the text `transient`.
pub const TRANSIENT_STAKE_SEED_PREFIX: [u8; 9] = [
    116u8,
    114u8,
    97u8,
    110u8,
    115u8,
    105u8,
    101u8,
    110u8,
    116u8,
];

/// The bytes of a seed as a growable vector.
pub fn seed_of<const N: usize>(bytes: &[u8; N]) -> (r: Vec<u8>)
    ensures
        r@ == bytes@,
{
    let mut r: Vec<u8> = Vec::new();
    let mut i: usize = 0;
    while i < N
        invariant
            i <= N,
            r@.len() == i,
            forall|j: int| 0 <= j < i ==> r@[j] == bytes@[j],
        decreases N - i,
    {
        r.push(bytes[i]);
        i = i + 1;
    }
    assert(r@ =~= bytes@);
    r
}

/// Seeds of a pool's deposit authority.
pub open spec fn deposit_authority_seeds(stake_pool_address: Seq<u8>) -> Seq<Seq<u8>> {
    seq![stake_pool_address, AUTHORITY_DEPOSIT@]
}

/// Seeds of a pool's withdraw authority.
pub open spec fn withdraw_authority_seeds(stake_pool_address: Seq<u8>) -> Seq<Seq<u8>> {
    seq![stake_pool_address, AUTHORITY_WITHDRAW@]
}

/// Seeds of the stake account of a validator in a pool.
pub open spec fn stake_seeds(vote_account_address: Seq<u8>, stake_pool_address: Seq<u8>) -> Seq<
    Seq<u8>,
> {
    seq![vote_account_address, stake_pool_address]
}

/// Seeds of the transient stake account of a validator in a pool: the seed
/// counter enters as eight little-endian bytes.
pub open spec fn transient_stake_seeds(
    vote_account_address: Seq<u8>,
    stake_pool_address: Seq<u8>,
    seed: u64,
) -> Seq<Seq<u8>> {
    seq![
        TRANSIENT_STAKE_SEED_PREFIX@,
        vote_account_address,
        stake_pool_address,
        spec_u64_to_le_bytes(seed),
    ]
}

/// Whether `seeds` derive an address under the program at `program_id`.
pub open spec fn derivable(seeds: Seq<Seq<u8>>, program_id: Seq<u8>) -> bool {
    program_address(seeds, program_id) is Some
}

/// The address that `seeds` derive under the program at `program_id`.
pub open spec fn derived_address(seeds: Seq<Seq<u8>>, program_id: Seq<u8>) -> Seq<u8>
    recommends
        derivable(seeds, program_id),
{
    (program_address(seeds, program_id)->0).0
}

/// The bump seed with which `seeds` derive their address.
pub open spec fn derived_bump(seeds: Seq<Seq<u8>>, program_id: Seq<u8>) -> u8
    recommends
        derivable(seeds, program_id),
{
    (program_address(seeds, program_id)->0).1
}

/// Whether `found` is the address and bump seed that `seeds` derive under
/// the program at `program_id`.
pub open spec fn derives(seeds: Seq<Seq<u8>>, program_id: Seq<u8>, found: (Address, u8)) -> bool {
    &&& derivable(seeds, program_id)
    &&& found.0@ == derived_address(seeds, program_id)
    &&& found.1 == derived_bump(seeds, program_id)
}

/// Derives the address of `seeds` under the program at `program_id`, or
/// `None` where there is none.
pub fn try_find_program_address(seeds: &Vec<Vec<u8>>, program_id: &Address) -> (r: Option<
    (Address, u8),
>)
    ensures
        r is Some == derivable(seeds.deep_view(), program_id@),
        r matches Some(found) ==> derives(seeds.deep_view(), program_id@, found),
{
    pubkey_try_find_program_address(seeds, program_id)
}

fn deposit_seeds_of(stake_pool_address: &Address) -> (r: Vec<Vec<u8>>)
    ensures
        r.deep_view() == deposit_authority_seeds(stake_pool_address@),
{
    let r = vec![stake_pool_address.to_vec(), seed_of(&AUTHORITY_DEPOSIT)];
    assert(r.deep_view() =~~= deposit_authority_seeds(stake_pool_address@));
    r
}

fn withdraw_seeds_of(stake_pool_address: &Address) -> (r: Vec<Vec<u8>>)
    ensures
        r.deep_view() == withdraw_authority_seeds(stake_pool_address@),
{
    let r = vec![stake_pool_address.to_vec(), seed_of(&AUTHORITY_WITHDRAW)];
    assert(r.deep_view() =~~= withdraw_authority_seeds(stake_pool_address@));
    r
}

fn stake_seeds_of(vote_account_address: &Address, stake_pool_address: &Address) -> (r: Vec<
    Vec<u8>,
>)
    ensures
        r.deep_view() == stake_seeds(vote_account_address@, stake_pool_address@),
{
    let r = vec![vote_account_address.to_vec(), stake_pool_address.to_vec()];
    assert(r.deep_view() =~~= stake_seeds(vote_account_address@, stake_pool_address@));
    r
}

fn transient_seeds_of(
    vote_account_address: &Address,
    stake_pool_address: &Address,
    seed: u64,
) -> (r: Vec<Vec<u8>>)
    ensures
        r.deep_view() == transient_stake_seeds(vote_account_address@, stake_pool_address@, seed),
{
    let r = vec![
        seed_of(&TRANSIENT_STAKE_SEED_PREFIX),
        vote_account_address.to_vec(),
        stake_pool_address.to_vec(),
        u64_to_le_bytes(seed),
    ];
    assert(r.deep_view() =~~= transient_stake_seeds(
        vote_account_address@,
        stake_pool_address@,
        seed,
    ));
    r
}

/// Generates the deposit authority program address for the stake pool.
///
/// The caller knows that the seeds derive an address; where that is not
/// known, `try_find_deposit_authority_program_address` makes the search first.
pub fn find_deposit_authority_program_address(
    program_id: &Address,
    stake_pool_address: &Address,
) -> (r: (Address, u8))
    requires
        derivable(deposit_authority_seeds(stake_pool_address@), program_id@),
    ensures
        derives(deposit_authority_seeds(stake_pool_address@), program_id@, r),
{
    let seeds = deposit_seeds_of(stake_pool_address);
    match pubkey_try_find_program_address(&seeds, program_id) {
        Some(found) => found,
        None => unreached(),
    }
}

/// As `find_deposit_authority_program_address`, for every input: `None` where the
/// seeds derive no address.
pub fn try_find_deposit_authority_program_address(
    program_id: &Address,
    stake_pool_address: &Address,
) -> (r: Option<(Address, u8)>)
    ensures
        r is Some == derivable(deposit_authority_seeds(stake_pool_address@), program_id@),
        r matches Some(found) ==> derives(deposit_authority_seeds(stake_pool_address@), program_id@, found),
{
    let seeds = deposit_seeds_of(stake_pool_address);
    if pubkey_try_find_program_address(&seeds, program_id).is_some() {
        Some(find_deposit_authority_program_address(program_id, stake_pool_address))
    } else {
        None
    }
}

/// Generates the withdraw authority program address for the stake pool.
///
/// The caller knows that the seeds derive an address; where that is not
/// known, `try_find_withdraw_authority_program_address` makes the search first.
pub fn find_withdraw_authority_program_address(
    program_id: &Address,
    stake_pool_address: &Address,
) -> (r: (Address, u8))
    requires
        derivable(withdraw_authority_seeds(stake_pool_address@), program_id@),
    ensures
        derives(withdraw_authority_seeds(stake_pool_address@), program_id@, r),
{
    let seeds = withdraw_seeds_of(stake_pool_address);
    match pubkey_try_find_program_address(&seeds, program_id) {
        Some(found) => found,
        None => unreached(),
    }
}

/// As `find_withdraw_authority_program_address`, for every input: `None` where the
/// seeds derive no address.
pub fn try_find_withdraw_authority_program_address(
    program_id: &Address,
    stake_pool_address: &Address,
) -> (r: Option<(Address, u8)>)
    ensures
        r is Some == derivable(withdraw_authority_seeds(stake_pool_address@), program_id@),
        r matches Some(found) ==> derives(withdraw_authority_seeds(stake_pool_address@), program_id@, found),
{
    let seeds = withdraw_seeds_of(stake_pool_address);
    if pubkey_try_find_program_address(&seeds, program_id).is_some() {
        Some(find_withdraw_authority_program_address(program_id, stake_pool_address))
    } else {
        None
    }
}

/// Generates the stake program address for a validator's vote account.
///
/// The caller knows that the seeds derive an address; where that is not
/// known, `try_find_stake_program_address` makes the search first.
pub fn find_stake_program_address(
    program_id: &Address,
    vote_account_address: &Address,
    stake_pool_address: &Address,
) -> (r: (Address, u8))
    requires
        derivable(stake_seeds(vote_account_address@, stake_pool_address@), program_id@),
    ensures
        derives(stake_seeds(vote_account_address@, stake_pool_address@), program_id@, r),
{
    let seeds = stake_seeds_of(vote_account_address, stake_pool_address);
    match pubkey_try_find_program_address(&seeds, program_id) {
        Some(found) => found,
        None => unreached(),
    }
}

/// As `find_stake_program_address`, for every input: `None` where the
/// seeds derive no address.
pub fn try_find_stake_program_address(
    program_id: &Address,
    vote_account_address: &Address,
    stake_pool_address: &Address,
) -> (r: Option<(Address, u8)>)
    ensures
        r is Some == derivable(stake_seeds(vote_account_address@, stake_pool_address@), program_id@),
        r matches Some(found) ==> derives(stake_seeds(vote_account_address@, stake_pool_address@), program_id@, found),
{
    let seeds = stake_seeds_of(vote_account_address, stake_pool_address);
    if pubkey_try_find_program_address(&seeds, program_id).is_some() {
        Some(find_stake_program_address(program_id, vote_account_address, stake_pool_address))
    } else {
        None
    }
}

/// Generates the transient stake program address for a validator's vote
/// account and a seed counter.
///
/// The caller knows that the seeds derive an address; where that is not
/// known, `try_find_transient_stake_program_address` makes the search first.
pub fn find_transient_stake_program_address(
    program_id: &Address,
    vote_account_address: &Address,
    stake_pool_address: &Address,
    seed: u64,
) -> (r: (Address, u8))
    requires
        derivable(transient_stake_seeds(vote_account_address@, stake_pool_address@, seed), program_id@),
    ensures
        derives(transient_stake_seeds(vote_account_address@, stake_pool_address@, seed), program_id@, r),
{
    let seeds = transient_seeds_of(vote_account_address, stake_pool_address, seed);
    match pubkey_try_find_program_address(&seeds, program_id) {
        Some(found) => found,
        None => unreached(),
    }
}

/// As `find_transient_stake_program_address`, for every input: `None` where the
/// seeds derive no address.
pub fn try_find_transient_stake_program_address(
    program_id: &Address,
    vote_account_address: &Address,
    stake_pool_address: &Address,
    seed: u64,
) -> (r: Option<(Address, u8)>)
    ensures
        r is Some == derivable(transient_stake_seeds(vote_account_address@, stake_pool_address@, seed), program_id@),
        r matches Some(found) ==> derives(transient_stake_seeds(vote_account_address@, stake_pool_address@, seed), program_id@, found),
{
    let seeds = transient_seeds_of(vote_account_address, stake_pool_address, seed);
    if pubkey_try_find_program_address(&seeds, program_id).is_some() {
        Some(find_transient_stake_program_address(program_id, vote_account_address, stake_pool_address, seed))
    } else {
        None
    }
}

/// Whatever two derivations from the same seeds and program return, they
/// return the same address and bump seed.
pub proof fn lemma_derivation_is_deterministic(
    seeds: Seq<Seq<u8>>,
    program_id: Seq<u8>,
    first: (Address, u8),
    second: (Address, u8),
)
    requires
        derives(seeds, program_id, first),
        derives(seeds, program_id, second),
    ensures
        first == second,
{
    crate::address::lemma_address_ext(first.0, second.0);
}

} // verus!
