//! What a command is run with.

use vstd::prelude::*;
use crate::address::Address;

verus! {

/// The settings of one invocation. Each signer stands here by its address;
/// the keys that sign stay with the caller.
#[derive(Clone, Copy, Debug)]
pub struct JitoStakePoolCliConfig {
    /// Verbose
    pub verbose: bool,
    /// Manager
    pub manager: Address,
    /// Staker
    pub staker: Address,
    /// Funding authority
    pub funding_authority: Option<Address>,
    /// Token owner
    pub token_owner: Address,
    /// Fee payer
    pub fee_payer: Address,
    /// Dry run
    pub dry_run: bool,
    /// No update
    pub no_update: bool,
}

} // verus!
