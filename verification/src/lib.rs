//! Client-side logic for operating a delegated-stake pool: address
//! derivation, account decoding, instruction assembly and the decisions of
//! each command.

pub mod address;
pub mod client;
pub mod command;
pub mod config;
pub mod error;
pub mod ids;
pub mod instruction;
pub mod pda;
pub mod programs;
pub mod sdk;
pub mod state;
pub mod transaction;
