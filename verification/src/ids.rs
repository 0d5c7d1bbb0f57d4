//! Addresses of the programs and system accounts that the pool's
//! instructions name. Each is written in base 58 in its doc comment and
//! held here as the thirty-two bytes that the text spells.

use vstd::prelude::*;
use crate::address::Address;

verus! {

/// Bytes of the address of the stake pool program, `SPoo1Ku8WFXoNDMHPsrGSTSG1Y47rzgn41SLUNakuHy`.
pub const STAKE_POOL_PROGRAM_ID: [u8; 32] = [
    6u8, 129u8, 78u8, 212u8, 202u8, 246u8, 138u8, 23u8,
    70u8, 114u8, 253u8, 172u8, 134u8, 3u8, 26u8, 99u8,
    232u8, 78u8, 161u8, 94u8, 250u8, 29u8, 68u8, 183u8,
    34u8, 147u8, 246u8, 219u8, 219u8, 0u8, 22u8, 80u8,
];

/// The address of the stake pool program, as bytes.
pub open spec fn stake_pool_program_bytes() -> Seq<u8> {
    STAKE_POOL_PROGRAM_ID@
}

/// The address of the stake pool program.
pub fn stake_pool_program_id() -> (r: Address)
    ensures
        r@ == stake_pool_program_bytes(),
{
    Address { bytes: STAKE_POOL_PROGRAM_ID }
}

/// Bytes of the address of the system program, `11111111111111111111111111111111`.
pub const SYSTEM_PROGRAM_ID: [u8; 32] = [
    0u8, 0u8, 0u8, 0u8, 0u8, 0u8, 0u8, 0u8,
    0u8, 0u8, 0u8, 0u8, 0u8, 0u8, 0u8, 0u8,
    0u8, 0u8, 0u8, 0u8, 0u8, 0u8, 0u8, 0u8,
    0u8, 0u8, 0u8, 0u8, 0u8, 0u8, 0u8, 0u8,
];

/// The address of the system program, as bytes.
pub open spec fn system_program_bytes() -> Seq<u8> {
    SYSTEM_PROGRAM_ID@
}

/// The address of the system program.
pub fn system_program_id() -> (r: Address)
    ensures
        r@ == system_program_bytes(),
{
    Address { bytes: SYSTEM_PROGRAM_ID }
}

/// Bytes of the address of the stake program, `Stake11111111111111111111111111111111111111`.
pub const STAKE_PROGRAM_ID: [u8; 32] = [
    6u8, 161u8, 216u8, 23u8, 145u8, 55u8, 84u8, 42u8,
    152u8, 52u8, 55u8, 189u8, 254u8, 42u8, 122u8, 178u8,
    85u8, 127u8, 83u8, 92u8, 138u8, 120u8, 114u8, 43u8,
    104u8, 164u8, 157u8, 192u8, 0u8, 0u8, 0u8, 0u8,
];

/// The address of the stake program, as bytes.
pub open spec fn stake_program_bytes() -> Seq<u8> {
    STAKE_PROGRAM_ID@
}

/// The address of the stake program.
pub fn stake_program_id() -> (r: Address)
    ensures
        r@ == stake_program_bytes(),
{
    Address { bytes: STAKE_PROGRAM_ID }
}

/// Bytes of the address of the stake configuration account, `StakeConfig11111111111111111111111111111111`.
pub const STAKE_CONFIG_ID: [u8; 32] = [
    6u8, 161u8, 216u8, 23u8, 165u8, 2u8, 5u8, 11u8,
    104u8, 7u8, 145u8, 230u8, 206u8, 109u8, 184u8, 142u8,
    30u8, 91u8, 113u8, 80u8, 246u8, 31u8, 198u8, 121u8,
    10u8, 78u8, 180u8, 209u8, 0u8, 0u8, 0u8, 0u8,
];

/// The address of the stake configuration account, as bytes.
pub open spec fn stake_config_bytes() -> Seq<u8> {
    STAKE_CONFIG_ID@
}

/// The address of the stake configuration account.
pub fn stake_config_id() -> (r: Address)
    ensures
        r@ == stake_config_bytes(),
{
    Address { bytes: STAKE_CONFIG_ID }
}

/// Bytes of the address of the rent sysvar, `SysvarRent111111111111111111111111111111111`.
pub const SYSVAR_RENT_ID: [u8; 32] = [
    6u8, 167u8, 213u8, 23u8, 25u8, 44u8, 92u8, 81u8,
    33u8, 140u8, 201u8, 76u8, 61u8, 74u8, 241u8, 127u8,
    88u8, 218u8, 238u8, 8u8, 155u8, 161u8, 253u8, 68u8,
    227u8, 219u8, 217u8, 138u8, 0u8, 0u8, 0u8, 0u8,
];

/// The address of the rent sysvar, as bytes.
pub open spec fn sysvar_rent_bytes() -> Seq<u8> {
    SYSVAR_RENT_ID@
}

/// The address of the rent sysvar.
pub fn sysvar_rent_id() -> (r: Address)
    ensures
        r@ == sysvar_rent_bytes(),
{
    Address { bytes: SYSVAR_RENT_ID }
}

/// Bytes of the address of the clock sysvar, `SysvarC1ock11111111111111111111111111111111`.
pub const SYSVAR_CLOCK_ID: [u8; 32] = [
    6u8, 167u8, 213u8, 23u8, 24u8, 199u8, 116u8, 201u8,
    40u8, 86u8, 99u8, 152u8, 105u8, 29u8, 94u8, 182u8,
    139u8, 94u8, 184u8, 163u8, 155u8, 75u8, 109u8, 92u8,
    115u8, 85u8, 91u8, 33u8, 0u8, 0u8, 0u8, 0u8,
];

/// The address of the clock sysvar, as bytes.
pub open spec fn sysvar_clock_bytes() -> Seq<u8> {
    SYSVAR_CLOCK_ID@
}

/// The address of the clock sysvar.
pub fn sysvar_clock_id() -> (r: Address)
    ensures
        r@ == sysvar_clock_bytes(),
{
    Address { bytes: SYSVAR_CLOCK_ID }
}

/// Bytes of the address of the stake history sysvar, `SysvarStakeHistory1111111111111111111111111`.
pub const SYSVAR_STAKE_HISTORY_ID: [u8; 32] = [
    6u8, 167u8, 213u8, 23u8, 25u8, 53u8, 132u8, 208u8,
    254u8, 237u8, 155u8, 179u8, 67u8, 29u8, 19u8, 32u8,
    107u8, 229u8, 68u8, 40u8, 27u8, 87u8, 184u8, 86u8,
    108u8, 197u8, 55u8, 95u8, 244u8, 0u8, 0u8, 0u8,
];

/// The address of the stake history sysvar, as bytes.
pub open spec fn sysvar_stake_history_bytes() -> Seq<u8> {
    SYSVAR_STAKE_HISTORY_ID@
}

/// The address of the stake history sysvar.
pub fn sysvar_stake_history_id() -> (r: Address)
    ensures
        r@ == sysvar_stake_history_bytes(),
{
    Address { bytes: SYSVAR_STAKE_HISTORY_ID }
}

/// Bytes of the address of the token program, `TokenkegQfeZyiNwAJbNbGKPFXCWuBvf9Ss623VQ5DA`.
pub const TOKEN_PROGRAM_ID: [u8; 32] = [
    6u8, 221u8, 246u8, 225u8, 215u8, 101u8, 161u8, 147u8,
    217u8, 203u8, 225u8, 70u8, 206u8, 235u8, 121u8, 172u8,
    28u8, 180u8, 133u8, 237u8, 95u8, 91u8, 55u8, 145u8,
    58u8, 140u8, 245u8, 133u8, 126u8, 255u8, 0u8, 169u8,
];

/// The address of the token program, as bytes.
pub open spec fn token_program_bytes() -> Seq<u8> {
    TOKEN_PROGRAM_ID@
}

/// The address of the token program.
pub fn token_program_id() -> (r: Address)
    ensures
        r@ == token_program_bytes(),
{
    Address { bytes: TOKEN_PROGRAM_ID }
}

/// Bytes of the address of the associated token account program, `ATokenGPvbdGVxr1b2hvZbsiqW5xWH25efTNsLJA8knL`.
pub const ASSOCIATED_TOKEN_PROGRAM_ID: [u8; 32] = [
    140u8, 151u8, 37u8, 143u8, 78u8, 36u8, 137u8, 241u8,
    187u8, 61u8, 16u8, 41u8, 20u8, 142u8, 13u8, 131u8,
    11u8, 90u8, 19u8, 153u8, 218u8, 255u8, 16u8, 132u8,
    4u8, 142u8, 123u8, 216u8, 219u8, 233u8, 248u8, 89u8,
];

/// The address of the associated token account program, as bytes.
pub open spec fn associated_token_program_bytes() -> Seq<u8> {
    ASSOCIATED_TOKEN_PROGRAM_ID@
}

/// The address of the associated token account program.
pub fn associated_token_program_id() -> (r: Address)
    ensures
        r@ == associated_token_program_bytes(),
{
    Address { bytes: ASSOCIATED_TOKEN_PROGRAM_ID }
}

} // verus!
