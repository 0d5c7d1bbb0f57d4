//! Instructions and the accounts they name.

use vstd::prelude::*;
use crate::address::Address;

verus! {

/// What an account entry of an instruction says.
pub struct AccountMetaView {
    /// Bytes of the account's address.
    pub pubkey: Seq<u8>,
    /// Whether the transaction must carry a signature for `pubkey`.
    pub is_signer: bool,
    /// Whether the program may change the account.
    pub is_writable: bool,
}

/// A writable account.
pub open spec fn writable(pubkey: Seq<u8>, is_signer: bool) -> AccountMetaView {
    AccountMetaView { pubkey, is_signer, is_writable: true }
}

/// A read-only account.
pub open spec fn readonly(pubkey: Seq<u8>, is_signer: bool) -> AccountMetaView {
    AccountMetaView { pubkey, is_signer, is_writable: false }
}

/// One account of an instruction, with what the instruction asks of it.
#[derive(Clone, Copy, Debug)]
pub struct AccountMeta {
    /// The account's address.
    pub pubkey: Address,
    /// Whether the transaction must carry a signature for `pubkey`.
    pub is_signer: bool,
    /// Whether the program may change the account.
    pub is_writable: bool,
}

impl View for AccountMeta {
    type V = AccountMetaView;

    open spec fn view(&self) -> AccountMetaView {
        AccountMetaView {
            pubkey: self.pubkey@,
            is_signer: self.is_signer,
            is_writable: self.is_writable,
        }
    }
}

impl AccountMeta {
    /// Describes the account with the address `pubkey`.
    pub fn from_parts(pubkey: [u8; 32], is_signer: bool, is_writable: bool) -> (r: AccountMeta)
        ensures
            r@ == (AccountMetaView { pubkey: pubkey@, is_signer, is_writable }),
    {
        AccountMeta { pubkey: Address { bytes: pubkey }, is_signer, is_writable }
    }

    /// Describes a writable account.
    pub fn new(pubkey: Address, is_signer: bool) -> (r: AccountMeta)
        ensures
            r@ == writable(pubkey@, is_signer),
    {
        AccountMeta { pubkey, is_signer, is_writable: true }
    }

    /// Describes a read-only account.
    pub fn new_readonly(pubkey: Address, is_signer: bool) -> (r: AccountMeta)
        ensures
            r@ == readonly(pubkey@, is_signer),
    {
        AccountMeta { pubkey, is_signer, is_writable: false }
    }
}

/// The entries of an account list.
pub open spec fn account_views(accounts: Seq<AccountMeta>) -> Seq<AccountMetaView> {
    accounts.map_values(|m: AccountMeta| m@)
}

/// What an instruction is: the program it addresses, the accounts in the
/// order the program expects them, and the bytes the program interprets.
pub struct InstructionView {
    pub program_id: Seq<u8>,
    pub accounts: Seq<AccountMetaView>,
    pub data: Seq<u8>,
}

impl InstructionView {
    /// Whether the instruction requires a signature of the address `who`.
    pub open spec fn requires_signature_of(self, who: Seq<u8>) -> bool {
        exists|i: int|
            0 <= i < self.accounts.len() && (#[trigger] self.accounts[i]).is_signer
                && self.accounts[i].pubkey == who
    }
}

/// A request to one on-chain program.
#[derive(Clone, Debug)]
pub struct Instruction {
    /// Address of the program that executes the instruction.
    pub program_id: Address,
    /// The accounts handed to the program, in order.
    pub accounts: Vec<AccountMeta>,
    /// Bytes handed to the program.
    pub data: Vec<u8>,
}

impl View for Instruction {
    type V = InstructionView;

    open spec fn view(&self) -> InstructionView {
        InstructionView {
            program_id: self.program_id@,
            accounts: account_views(self.accounts@),
            data: self.data@,
        }
    }
}

impl Instruction {
    /// The instruction for the program with the address `program_id`.
    pub fn from_parts(program_id: [u8; 32], accounts: Vec<AccountMeta>, data: Vec<u8>) -> (r:
        Instruction)
        ensures
            r@.program_id == program_id@,
            r@.accounts == account_views(accounts@),
            r@.data == data@,
    {
        Instruction { program_id: Address { bytes: program_id }, accounts, data }
    }
}

/// The views of a list of instructions.
pub open spec fn instruction_views(instructions: Seq<Instruction>) -> Seq<InstructionView> {
    instructions.map_values(|ix: Instruction| ix@)
}

} // verus!
