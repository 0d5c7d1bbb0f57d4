//! Reading the pool's accounts from the bytes an RPC node returned.

use vstd::prelude::*;
use crate::address::Address;
use crate::error::Error;
use crate::state::{
    io_error_text, stake_pool_decoding, stake_pool_deserialize, validator_list_decoding,
    validator_list_deserialize, StakePool, ValidatorList,
};

verus! {

/// Reads the stake pool out of the data of the account at
/// `stake_pool_address`.
///
/// Returns the pool that the bytes decode to; where they decode to none, the
/// error names the account.
pub fn get_stake_pool(stake_pool_address: &Address, account_data: &Vec<u8>) -> (r: Result<
    StakePool,
    Error,
>)
    ensures
        match stake_pool_decoding(account_data@) {
            Some(pool) => r == Ok::<StakePool, Error>(pool),
            None => r matches Err(Error::InvalidStakePool { address, .. }) && address
                == *stake_pool_address,
        },
{
    match stake_pool_deserialize(account_data) {
        Ok(pool) => Ok(pool),
        Err(e) => Err(
            Error::InvalidStakePool { address: *stake_pool_address, reason: io_error_text(&e) },
        ),
    }
}

/// Reads the validator list out of the data of the account at
/// `validator_list_address`.
///
/// Returns the list that the bytes decode to; where they decode to none, the
/// error names the account.
pub fn get_validator_list(validator_list_address: &Address, account_data: &Vec<u8>) -> (r: Result<
    ValidatorList,
    Error,
>)
    ensures
        match validator_list_decoding(account_data@) {
            Some(list) => r matches Ok(got) && got@ == list,
            None => r matches Err(Error::InvalidValidatorList { address, .. }) && address
                == *validator_list_address,
        },
{
    match validator_list_deserialize(account_data) {
        Ok(list) => Ok(list),
        Err(e) => Err(
            Error::InvalidValidatorList {
                address: *validator_list_address,
                reason: io_error_text(&e),
            },
        ),
    }
}

} // verus!
