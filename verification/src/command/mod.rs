//! The commands. Each is a function from the state of the command and what
//! the caller last learned to the next state and what the caller is to do;
//! the caller talks to the RPC node and holds the keys.

pub mod add_validator;
pub mod create_pool;
pub mod deposit_sol;
pub mod increase_validator_stake;

use vstd::prelude::*;
use crate::address::Address;
use crate::error::Error;
use crate::transaction::{Submission, TransactionView};

verus! {

/// What the caller hands to a command.
#[derive(Debug)]
pub enum Event {
    /// The command begins.
    Start,
    /// The data of the account that was asked for.
    AccountData(Vec<u8>),
    /// The account that was asked for could not be had.
    AccountUnavailable,
    /// The lamports of the account whose balance was asked for.
    Balance(u64),
    /// The lamports that exempt an account of the size asked for from rent.
    MinimumBalance(u64),
    /// The fee of the transaction asked about.
    Fee(u64),
    /// The transaction that was to be submitted has been simulated or
    /// confirmed.
    Submitted,
}

/// How a command ended well.
#[derive(Clone, Copy, Debug)]
pub enum Outcome {
    /// The pool was already as the command would leave it; nothing was
    /// submitted.
    AlreadySatisfied,
    /// The command's transaction was submitted.
    Submitted,
}

/// What the caller is to do next.
#[derive(Debug)]
pub enum Action {
    /// Fetch the data of this account and hand it back as
    /// `Event::AccountData`.
    FetchAccount(Address),
    /// Fetch the data of this account and hand it back as
    /// `Event::AccountData`, or hand back `Event::AccountUnavailable` where
    /// it cannot be had.
    ProbeAccount(Address),
    /// Fetch the balance of this account and hand it back as
    /// `Event::Balance`.
    FetchBalance(Address),
    /// Fetch the lamports that exempt an account of this many bytes from
    /// rent and hand them back as `Event::MinimumBalance`.
    FetchMinimumBalance(u64),
    /// Fetch the fee of the first transaction that the state holds and hand
    /// it back as `Event::Fee`.
    FetchSetupFee,
    /// Fetch the fee of the second transaction that the state holds and
    /// hand it back as `Event::Fee`.
    FetchInitializeFee,
    /// Sign and submit, then hand back `Event::Submitted`.
    Submit(Submission),
    /// The command is over.
    Done(Outcome),
    /// The command failed.
    Fail(Error),
    /// The event is not one the command waits for in its state; the command
    /// is over.
    Unexpected,
}

impl Action {
    /// Whether the action asks to submit exactly `transaction`: to simulate
    /// it in a dry run, and to send it and wait for its confirmation
    /// otherwise.
    pub open spec fn submits(self, transaction: TransactionView, dry_run: bool) -> bool {
        &&& self matches Action::Submit(submission)
        &&& submission.transaction() == transaction
        &&& dry_run ==> submission is Simulate
        &&& !dry_run ==> submission is SendAndConfirm
    }

    /// Whether the action leaves anything to submit.
    pub open spec fn is_submission(self) -> bool {
        self is Submit
    }
}

} // verus!
