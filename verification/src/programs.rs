//! Instructions and accounts of the programs that the pool works beside:
//! the system program, the token program and the associated token account
//! program. Each builder here calls the crate that owns the layout.

use vstd::prelude::*;
use vstd::bytes::spec_u64_to_le_bytes;
use solana_program::program_pack::Pack;
use solana_program::pubkey::Pubkey;
use crate::address::Address;
use crate::ids::{
    associated_token_program_bytes, associated_token_program_id, stake_program_bytes,
    stake_program_id, sysvar_rent_bytes, system_program_bytes, token_program_bytes,
};
use crate::instruction::instruction_views;
use crate::instruction::{readonly, writable, AccountMeta, Instruction, InstructionView};
use crate::pda::{derivable, derived_address, try_find_program_address};

verus! {

/// Why a builder of `spl_token` built no instruction; carried through
/// unopened.
#[verifier::external_type_specification]
#[verifier::external_body]
pub struct ExProgramError(solana_program::program_error::ProgramError);

/// Size in bytes of a token account.
pub const TOKEN_ACCOUNT_LEN: u64 = 165;

/// Size in bytes of a token mint.
pub const TOKEN_MINT_LEN: u64 = 82;

/// Size in bytes of a stake account.
pub const STAKE_STATE_LEN: u64 = 200;

/// Decimal places of the native token, which the pool's token takes over.
pub const NATIVE_MINT_DECIMALS: u8 = 9;

/// The system program's transfer of `lamports` from `from` to `to`: `from`
/// signs, both accounts change, and the data is the tag 2 as four
/// little-endian bytes followed by the lamports as eight.
pub open spec fn transfer_instruction(from: Seq<u8>, to: Seq<u8>, lamports: u64) -> InstructionView {
    InstructionView {
        program_id: system_program_bytes(),
        accounts: seq![writable(from, true), writable(to, false)],
        data: seq![2u8, 0u8, 0u8, 0u8] + spec_u64_to_le_bytes(lamports),
    }
}

/// Calls `solana_system_interface::instruction::transfer`.
///
/// Trusted: the instruction is `transfer_instruction`, as the function's
/// source lists the accounts and `bincode` writes the `Transfer` variant,
/// the third of the system program's instructions.
#[verifier::external_body]
pub(crate) fn system_transfer(from: &Address, to: &Address, lamports: u64) -> (r: Instruction)
    ensures
        r@ == transfer_instruction(from@, to@, lamports),
{
    let made = solana_system_interface::instruction::transfer(
        &Pubkey::new_from_array(from.bytes),
        &Pubkey::new_from_array(to.bytes),
        lamports,
    );
    let accounts = made.accounts.iter().map(
        |m| AccountMeta::from_parts(m.pubkey.to_bytes(), m.is_signer, m.is_writable),
    ).collect();
    Instruction::from_parts(made.program_id.to_bytes(), accounts, made.data)
}

/// Seeds of the associated token account of `wallet` for `mint` under the
/// token program at `token_program`.
pub open spec fn associated_token_seeds(
    wallet: Seq<u8>,
    token_program: Seq<u8>,
    mint: Seq<u8>,
) -> Seq<Seq<u8>> {
    seq![wallet, token_program, mint]
}

/// Whether `wallet` has an associated token account address for `mint`
/// under the token program.
pub open spec fn has_associated_token_address(wallet: Seq<u8>, mint: Seq<u8>) -> bool {
    derivable(
        associated_token_seeds(wallet, token_program_bytes(), mint),
        associated_token_program_bytes(),
    )
}

/// The address of the associated token account of `wallet` for `mint`
/// under the token program.
pub open spec fn associated_token_address(wallet: Seq<u8>, mint: Seq<u8>) -> Seq<u8> {
    derived_address(
        associated_token_seeds(wallet, token_program_bytes(), mint),
        associated_token_program_bytes(),
    )
}

/// Calls `spl_associated_token_account::get_associated_token_address`.
///
/// Trusted: the address is the one derived from the wallet, the token
/// program and the mint, in that order, under the associated token account
/// program. The call panics where those seeds derive nothing, which
/// `requires` leaves out.
#[verifier::external_body]
pub(crate) fn ata_get_associated_token_address(wallet: &Address, mint: &Address) -> (r: Address)
    requires
        has_associated_token_address(wallet@, mint@),
    ensures
        r@ == associated_token_address(wallet@, mint@),
{
    let found = spl_associated_token_account::get_associated_token_address(
        &Pubkey::new_from_array(wallet.bytes),
        &Pubkey::new_from_array(mint.bytes),
    );
    Address { bytes: found.to_bytes() }
}

/// The associated token account of `owner` for `mint`.
pub fn get_associated_token_address(owner: &Address, mint: &Address) -> (r: Address)
    requires
        has_associated_token_address(owner@, mint@),
    ensures
        r@ == associated_token_address(owner@, mint@),
{
    ata_get_associated_token_address(owner, mint)
}

/// As `get_associated_token_address`, for every input: `None` where the
/// owner has no such address.
pub fn try_get_associated_token_address(owner: &Address, mint: &Address) -> (r: Option<Address>)
    ensures
        r is Some == has_associated_token_address(owner@, mint@),
        r matches Some(a) ==> a@ == associated_token_address(owner@, mint@),
{
    let seeds = vec![owner.to_vec(), crate::ids::token_program_id().to_vec(), mint.to_vec()];
    assert(seeds.deep_view() =~~= associated_token_seeds(owner@, token_program_bytes(), mint@));
    if try_find_program_address(&seeds, &associated_token_program_id()).is_some() {
        Some(get_associated_token_address(owner, mint))
    } else {
        None
    }
}

/// The instruction that creates the associated token account of `wallet`
/// for `mint`, paid for by `funding`, who signs.
pub open spec fn create_associated_token_account_instruction(
    funding: Seq<u8>,
    wallet: Seq<u8>,
    mint: Seq<u8>,
) -> InstructionView {
    InstructionView {
        program_id: associated_token_program_bytes(),
        accounts: seq![
            writable(funding, true),
            writable(associated_token_address(wallet, mint), false),
            readonly(wallet, false),
            readonly(mint, false),
            readonly(system_program_bytes(), false),
            readonly(token_program_bytes(), false),
        ],
        data: seq![0u8],
    }
}

/// Calls `spl_associated_token_account::instruction::create_associated_token_account`
/// for the token program.
///
/// Trusted: the instruction is `create_associated_token_account_instruction`,
/// as the function's source lists the six accounts and the one byte of data.
/// The call derives the account's address and panics where there is none,
/// which `requires` leaves out.
#[verifier::external_body]
pub(crate) fn ata_create_associated_token_account(
    funding: &Address,
    wallet: &Address,
    mint: &Address,
) -> (r: Instruction)
    requires
        has_associated_token_address(wallet@, mint@),
    ensures
        r@ == create_associated_token_account_instruction(funding@, wallet@, mint@),
{
    let made = spl_associated_token_account::instruction::create_associated_token_account(
        &Pubkey::new_from_array(funding.bytes),
        &Pubkey::new_from_array(wallet.bytes),
        &Pubkey::new_from_array(mint.bytes),
        &spl_token::id(),
    );
    let accounts = made.accounts.iter().map(
        |m| AccountMeta::from_parts(m.pubkey.to_bytes(), m.is_signer, m.is_writable),
    ).collect();
    Instruction::from_parts(made.program_id.to_bytes(), accounts, made.data)
}

/// The mint of the token account that `spl_token` unpacks from the first
/// 165 bytes of `data`, or `None` where it rejects them.
pub uninterp spec fn token_account_mint(data: Seq<u8>) -> Option<Seq<u8>>;

/// Calls `spl_token::state::Account::unpack_from_slice` and hands out the
/// mint of the account.
///
/// Trusted: the outcome is a function of the bytes, which
/// `token_account_mint` names. The call panics on fewer than 165 bytes,
/// which `requires` leaves out.
#[verifier::external_body]
pub(crate) fn token_account_unpack_mint(data: &Vec<u8>) -> (r: Option<Address>)
    requires
        data@.len() >= 165,
    ensures
        r matches Some(mint) ==> token_account_mint(data@) == Some(mint@),
        r is None ==> token_account_mint(data@) is None,
{
    match spl_token::state::Account::unpack_from_slice(data.as_slice()) {
        Ok(account) => Some(Address { bytes: account.mint.to_bytes() }),
        Err(_) => None,
    }
}

/// Whether `data` holds a token account of the mint `expected_token_mint`.
pub open spec fn is_token_account_of(data: Seq<u8>, expected_token_mint: Seq<u8>) -> bool {
    data.len() >= TOKEN_ACCOUNT_LEN && token_account_mint(data) == Some(expected_token_mint)
}

/// Checks that the data of an account is a token account of the expected
/// mint. Data too short for a token account is none.
pub fn get_token_account(account_data: &Vec<u8>, expected_token_mint: &Address) -> (r: bool)
    ensures
        r == is_token_account_of(account_data@, expected_token_mint@),
{
    if account_data.len() < 165 {
        return false;
    }
    match token_account_unpack_mint(account_data) {
        Some(mint) => mint.same(expected_token_mint),
        None => false,
    }
}

/// The system program's creation of the account `to` with `lamports`
/// lamports and `space` bytes, owned by the program at `owner` and paid for
/// by `from`: both sign, and the data is the tag 0 as four little-endian
/// bytes, the lamports and the space as eight each, and the owner.
pub open spec fn create_account_instruction(
    from: Seq<u8>,
    to: Seq<u8>,
    lamports: u64,
    space: u64,
    owner: Seq<u8>,
) -> InstructionView {
    InstructionView {
        program_id: system_program_bytes(),
        accounts: seq![writable(from, true), writable(to, true)],
        data: seq![0u8, 0u8, 0u8, 0u8] + spec_u64_to_le_bytes(lamports) + spec_u64_to_le_bytes(
            space,
        ) + owner,
    }
}

/// Calls `solana_system_interface::instruction::create_account`.
///
/// Trusted: the instruction is `create_account_instruction`, as the
/// function's source lists the accounts and `bincode` writes the
/// `CreateAccount` variant, the first of the system program's instructions.
#[verifier::external_body]
pub(crate) fn system_create_account(
    from: &Address,
    to: &Address,
    lamports: u64,
    space: u64,
    owner: &Address,
) -> (r: Instruction)
    ensures
        r@ == create_account_instruction(from@, to@, lamports, space, owner@),
{
    let key = |a: &Address| Pubkey::new_from_array(a.bytes);
    let made = solana_system_interface::instruction::create_account(
        &key(from), &key(to), lamports, space, &key(owner),
    );
    let accounts = made.accounts.iter().map(
        |m| AccountMeta::from_parts(m.pubkey.to_bytes(), m.is_signer, m.is_writable),
    ).collect();
    Instruction::from_parts(made.program_id.to_bytes(), accounts, made.data)
}

/// The stake program's initialisation of the stake account `stake` with
/// the given authorities and no lockup: the data is the tag 0 as four
/// little-endian bytes, the two authorities, and forty-eight zero bytes for
/// the lockup.
pub open spec fn stake_initialize_instruction(
    stake: Seq<u8>,
    staker: Seq<u8>,
    withdrawer: Seq<u8>,
) -> InstructionView {
    InstructionView {
        program_id: stake_program_bytes(),
        accounts: seq![writable(stake, false), readonly(sysvar_rent_bytes(), false)],
        data: seq![0u8, 0u8, 0u8, 0u8] + staker + withdrawer + Seq::new(48, |i: int| 0u8),
    }
}

/// Calls `solana_stake_interface::instruction::initialize` with the default
/// lockup.
///
/// Trusted: the instruction is `stake_initialize_instruction`, as the
/// function's source lists the accounts and `bincode` writes the
/// `Initialize` variant, the first of the stake program's instructions,
/// with a lockup whose fields are all zero.
#[verifier::external_body]
pub(crate) fn stake_initialize(
    stake: &Address,
    staker: &Address,
    withdrawer: &Address,
) -> (r: Instruction)
    ensures
        r@ == stake_initialize_instruction(stake@, staker@, withdrawer@),
{
    let key = |a: &Address| Pubkey::new_from_array(a.bytes);
    let made = solana_stake_interface::instruction::initialize(
        &key(stake),
        &solana_stake_interface::state::Authorized { staker: key(staker), withdrawer: key(withdrawer) },
        &solana_stake_interface::state::Lockup::default(),
    );
    let accounts = made.accounts.iter().map(
        |m| AccountMeta::from_parts(m.pubkey.to_bytes(), m.is_signer, m.is_writable),
    ).collect();
    Instruction::from_parts(made.program_id.to_bytes(), accounts, made.data)
}

/// The token program's initialisation of `mint` with `mint_authority` and
/// no freeze authority: the data is the tag 0, the decimals, the authority
/// and a zero byte for the absent freeze authority.
pub open spec fn initialize_mint_instruction(
    mint: Seq<u8>,
    mint_authority: Seq<u8>,
    decimals: u8,
) -> InstructionView {
    InstructionView {
        program_id: token_program_bytes(),
        accounts: seq![writable(mint, false), readonly(sysvar_rent_bytes(), false)],
        data: seq![0u8, decimals] + mint_authority + seq![0u8],
    }
}

/// Calls `spl_token::instruction::initialize_mint` for the token program,
/// without a freeze authority.
///
/// Trusted: the call succeeds, since its one check is that the program is
/// the token program, and the instruction is `initialize_mint_instruction`,
/// as the function's source lists the accounts and packs the data.
#[verifier::external_body]
pub(crate) fn token_initialize_mint(
    mint: &Address,
    mint_authority: &Address,
    decimals: u8,
) -> (r: Result<Instruction, solana_program::program_error::ProgramError>)
    ensures
        r is Ok,
        r->Ok_0@ == initialize_mint_instruction(mint@, mint_authority@, decimals),
{
    let made = spl_token::instruction::initialize_mint(
        &spl_token::id(),
        &Pubkey::new_from_array(mint.bytes),
        &Pubkey::new_from_array(mint_authority.bytes),
        None,
        decimals,
    )?;
    let accounts = made.accounts.iter().map(
        |m| AccountMeta::from_parts(m.pubkey.to_bytes(), m.is_signer, m.is_writable),
    ).collect();
    Ok(Instruction::from_parts(made.program_id.to_bytes(), accounts, made.data))
}

/// Appends the instruction that creates the stake account at
/// `stake_receiver`, with `lamports` lamports and paid for by `fee_payer`.
pub fn new_stake_account(
    fee_payer: &Address,
    stake_receiver: &Address,
    instructions: &mut Vec<Instruction>,
    lamports: u64,
)
    ensures
        instruction_views(final(instructions)@) == instruction_views(old(instructions)@).push(
            create_account_instruction(
                fee_payer@,
                stake_receiver@,
                lamports,
                STAKE_STATE_LEN,
                stake_program_bytes(),
            ),
        ),
{
    let created = system_create_account(
        fee_payer,
        stake_receiver,
        lamports,
        STAKE_STATE_LEN,
        &stake_program_id(),
    );
    instructions.push(created);
    assert(instruction_views(instructions@) =~= instruction_views(old(instructions)@).push(
        created@,
    ));
}

} // verus!
