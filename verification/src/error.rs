//! What can go wrong in a command.

use vstd::prelude::*;
use crate::address::Address;

verus! {

/// Why a command stopped without submitting its transaction.
#[derive(Debug)]
pub enum Error {
    /// The data of the account at `address` is not a stake pool; `reason` is
    /// the decoder's message.
    InvalidStakePool { address: Address, reason: String },
    /// The data of the account at `address` is not a validator list;
    /// `reason` is the decoder's message.
    InvalidValidatorList { address: Address, reason: String },
    /// The vote account is not in the pool's validator list.
    VoteAccountNotFound,
    /// The source account holds `balance` lamports, fewer than the `amount`
    /// to deposit.
    NotEnoughSol { amount: u64, balance: u64 },
    /// A funding authority was given, but the pool has no SOL deposit
    /// authority.
    NoSolDepositAuthority,
    /// The funding authority given is not the pool's SOL deposit authority.
    InvalidDepositAuthority { expected: Address, received: Address },
    /// The fee payer holds `balance` lamports, fewer than are `required`.
    InsufficientFeePayerBalance { fee_payer: Address, required: u64, balance: u64 },
    /// The epoch fee of a new pool is zero.
    EpochFeeZero,
    /// Both the withdrawal fee and the deposit fee of a new pool are zero.
    WithdrawalAndDepositFeeZero,
    /// A text that should spell an amount of SOL spells none.
    InvalidAmount,
    /// A text that should spell an address spells none.
    InvalidAddress,
    /// The seeds of an account of the pool derive no address.
    NoProgramAddress,
    /// The lamports that the command has to pay do not fit in sixty-four
    /// bits.
    LamportsOverflow,
}

} // verus!
