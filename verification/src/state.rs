//! The pool's two accounts, as far as the client reads them.
//!
//! The byte layout of both accounts belongs to `spl_stake_pool`; decoding is
//! left to it, and what it decodes is carried over field by field.

use vstd::prelude::*;
use borsh::BorshDeserialize;
use crate::address::Address;

verus! {

/// Why `borsh` decoded nothing from the bytes; carried through unopened.
#[verifier::external_type_specification]
#[verifier::external_body]
pub struct ExIoError(std::io::Error);

/// A fee as a ratio. Where the numerator or the denominator is zero the fee
/// is zero.
#[derive(Clone, Copy, Debug)]
pub struct Fee {
    /// Denominator of the ratio.
    pub denominator: u64,
    /// Numerator of the ratio.
    pub numerator: u64,
}

impl Fee {
    /// Whether the fee is zero.
    pub open spec fn is_zero(self) -> bool {
        self.numerator == 0 || self.denominator == 0
    }
}

/// The global state of a stake pool: the addresses the client needs to
/// build instructions for it.
#[derive(Clone, Copy, Debug)]
pub struct StakePool {
    /// Authority that adds and removes validators and moves stake.
    pub staker: Address,
    /// The account holding the pool's validator list.
    pub validator_list: Address,
    /// The reserve stake account.
    pub reserve_stake: Address,
    /// The mint of the pool's token.
    pub pool_mint: Address,
    /// The token account that collects the manager's fees.
    pub manager_fee_account: Address,
    /// Where set, the authority that must sign every SOL deposit.
    pub sol_deposit_authority: Option<Address>,
}

/// One validator of the pool.
#[derive(Clone, Copy, Debug)]
pub struct ValidatorStakeInfo {
    /// The validator's vote account; the key of the entry.
    pub vote_account_address: Address,
    /// Seed counter of the validator's transient stake account.
    pub transient_seed_suffix: u64,
}

/// What a validator list holds.
pub struct ValidatorListView {
    pub max_validators: u32,
    pub validators: Seq<ValidatorStakeInfo>,
}

/// The validators of a pool, in the order of the account.
#[derive(Clone, Debug)]
pub struct ValidatorList {
    /// Number of validators the account has room for.
    pub max_validators: u32,
    /// The validators.
    pub validators: Vec<ValidatorStakeInfo>,
}

impl View for ValidatorList {
    type V = ValidatorListView;

    open spec fn view(&self) -> ValidatorListView {
        ValidatorListView { max_validators: self.max_validators, validators: self.validators@ }
    }
}

/// The stake pool that `spl_stake_pool` decodes from the start of `data`, or
/// `None` where it rejects the bytes.
pub uninterp spec fn stake_pool_decoding(data: Seq<u8>) -> Option<StakePool>;

/// The validator list that `spl_stake_pool` decodes from the start of
/// `data`, or `None` where it rejects the bytes.
pub uninterp spec fn validator_list_decoding(data: Seq<u8>) -> Option<ValidatorListView>;

/// Calls `StakePool::deserialize` of `spl_stake_pool` (through `borsh`) and
/// carries the decoded addresses over.
///
/// Trusted: the outcome is a function of the bytes, which
/// `stake_pool_decoding` names.
#[verifier::external_body]
pub(crate) fn stake_pool_deserialize(data: &Vec<u8>) -> (r: Result<StakePool, std::io::Error>)
    ensures
        r matches Ok(pool) ==> stake_pool_decoding(data@) == Some(pool),
        r is Err ==> stake_pool_decoding(data@) is None,
{
    let pool = spl_stake_pool::state::StakePool::deserialize(&mut data.as_slice())?;
    Ok(StakePool {
        staker: Address { bytes: pool.staker.to_bytes() },
        validator_list: Address { bytes: pool.validator_list.to_bytes() },
        reserve_stake: Address { bytes: pool.reserve_stake.to_bytes() },
        pool_mint: Address { bytes: pool.pool_mint.to_bytes() },
        manager_fee_account: Address { bytes: pool.manager_fee_account.to_bytes() },
        sol_deposit_authority: pool.sol_deposit_authority.map(|a| Address { bytes: a.to_bytes() }),
    })
}

/// Calls `ValidatorList::deserialize` of `spl_stake_pool` (through `borsh`)
/// and carries each entry's vote account and transient seed over.
///
/// Trusted: the outcome is a function of the bytes, which
/// `validator_list_decoding` names.
#[verifier::external_body]
pub(crate) fn validator_list_deserialize(data: &Vec<u8>) -> (r: Result<
    ValidatorList,
    std::io::Error,
>)
    ensures
        r matches Ok(list) ==> validator_list_decoding(data@) == Some(list@),
        r is Err ==> validator_list_decoding(data@) is None,
{
    let list = spl_stake_pool::state::ValidatorList::deserialize(&mut data.as_slice())?;
    Ok(ValidatorList {
        max_validators: list.header.max_validators,
        validators: list.validators.iter().map(|v| ValidatorStakeInfo {
            vote_account_address: Address { bytes: v.vote_account_address.to_bytes() },
            transient_seed_suffix: v.transient_seed_suffix.into(),
        }).collect(),
    })
}

/// The text of a decoder's error, from `std::io::Error`'s `Display`.
///
/// Trusted; nothing is claimed of the text.
#[verifier::external_body]
pub(crate) fn io_error_text(error: &std::io::Error) -> String {
    error.to_string()
}

impl ValidatorListView {
    /// Whether entry `i` is the entry of the vote account `vote`.
    pub open spec fn is_entry_of(self, i: int, vote: Seq<u8>) -> bool {
        0 <= i < self.validators.len() && self.validators[i].vote_account_address@ == vote
    }

    /// Whether the list has an entry for the vote account `vote`.
    pub open spec fn contains(self, vote: Seq<u8>) -> bool {
        exists|i: int| self.is_entry_of(i, vote)
    }

    /// Whether entry `i` is the first entry of the vote account `vote`.
    pub open spec fn is_first_entry_of(self, i: int, vote: Seq<u8>) -> bool {
        self.is_entry_of(i, vote) && forall|j: int| 0 <= j < i ==> !self.is_entry_of(j, vote)
    }

    /// The first entry of the vote account `vote`, if the list has one.
    pub open spec fn find(self, vote: Seq<u8>) -> Option<ValidatorStakeInfo> {
        if self.contains(vote) {
            Some(self.validators[choose|i: int| self.is_first_entry_of(i, vote)])
        } else {
            None
        }
    }

    /// A vote account has at most one first entry.
    pub proof fn lemma_first_entry_is_unique(self, i: int, j: int, vote: Seq<u8>)
        requires
            self.is_first_entry_of(i, vote),
            self.is_first_entry_of(j, vote),
        ensures
            i == j,
    {
        if i < j {
            assert(!self.is_entry_of(i, vote));
        }
        if j < i {
            assert(!self.is_entry_of(j, vote));
        }
    }

    /// What `find` returns is an entry of the list, and it is the entry of
    /// the vote account asked for.
    pub proof fn lemma_found_entry_matches(self, vote: Seq<u8>)
        requires
            self.contains(vote),
        ensures
            self.find(vote) matches Some(info) && info.vote_account_address@ == vote
                && self.validators.contains(info),
    {
        let first = self.lemma_contained_has_first_entry(vote);
        let chosen = choose|i: int| self.is_first_entry_of(i, vote);
        assert(self.is_first_entry_of(chosen, vote));
        assert(self.validators[chosen] == self.find(vote)->0);
    }

    /// A list that holds a vote account has a first entry of it.
    pub proof fn lemma_contained_has_first_entry(self, vote: Seq<u8>) -> (first: int)
        requires
            self.contains(vote),
        ensures
            self.is_first_entry_of(first, vote),
    {
        let some = choose|i: int| self.is_entry_of(i, vote);
        self.lemma_first_entry_before(some, vote)
    }

    proof fn lemma_first_entry_before(self, bound: int, vote: Seq<u8>) -> (first: int)
        requires
            self.is_entry_of(bound, vote),
        ensures
            self.is_first_entry_of(first, vote),
            first <= bound,
        decreases bound,
    {
        if forall|j: int| 0 <= j < bound ==> !self.is_entry_of(j, vote) {
            bound
        } else {
            let earlier = choose|j: int| 0 <= j < bound && self.is_entry_of(j, vote);
            self.lemma_first_entry_before(earlier, vote)
        }
    }
}

impl ValidatorList {
    /// Whether the list holds a validator with this vote account.
    pub fn contains(&self, vote_account_address: &Address) -> (r: bool)
        ensures
            r == self@.contains(vote_account_address@),
    {
        self.find(vote_account_address).is_some()
    }

    /// The first entry of the validator with this vote account, if the list
    /// holds one.
    pub fn find(&self, vote_account_address: &Address) -> (r: Option<ValidatorStakeInfo>)
        ensures
            r == self@.find(vote_account_address@),
    {
        let mut i: usize = 0;
        while i < self.validators.len()
            invariant
                i <= self.validators.len(),
                forall|j: int| 0 <= j < i ==> !self@.is_entry_of(j, vote_account_address@),
            decreases self.validators.len() - i,
        {
            if self.validators[i].vote_account_address.same(vote_account_address) {
                proof {
                    let vote = vote_account_address@;
                    assert(self@.is_entry_of(i as int, vote));
                    assert(self@.is_first_entry_of(i as int, vote));
                    let chosen = choose|k: int| self@.is_first_entry_of(k, vote);
                    self@.lemma_first_entry_is_unique(i as int, chosen, vote);
                }
                return Some(self.validators[i]);
            }
            i = i + 1;
        }
        None
    }
}

} // verus!
