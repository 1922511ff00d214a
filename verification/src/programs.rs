//! The programs that the custody program drives, and the addresses they
//! derive.

use crate::pubkey::{derived_address, find_program_address, seeds_view, Pubkey};
use vstd::prelude::*;

verus! {

/// Bytes of the token program's identity,
/// `TokenkegQfeZyiNwAJbNbGKPFXCWuBvf9Ss623VQ5DA`.
pub const TOKEN_PROGRAM_ID: [u8; 32] = [
    6, 221, 246, 225, 215, 101, 161, 147, 217, 203, 225, 70, 206, 235, 121, 172,
    28, 180, 133, 237, 95, 91, 55, 145, 58, 140, 245, 133, 126, 255, 0, 169,
];

/// Bytes of the associated token account program's identity,
/// `ATokenGPvbdGVxr1b2hvZbsiqW5xWH25efTNsLJA8knL`.
pub const ASSOCIATED_TOKEN_PROGRAM_ID: [u8; 32] = [
    140, 151, 37, 143, 78, 36, 137, 241, 187, 61, 16, 41, 20, 142, 13, 131,
    11, 90, 19, 153, 218, 255, 16, 132, 4, 142, 123, 216, 219, 233, 248, 89,
];

/// Bytes of the token metadata program's identity,
/// `metaqbxxUerdq28cj1RbAWkYQm3ybzjb6a8bt518x1s`.
pub const METADATA_PROGRAM_ID: [u8; 32] = [
    11, 112, 101, 177, 227, 209, 124, 69, 56, 157, 82, 127, 107, 4, 195, 205,
    88, 184, 108, 115, 26, 160, 253, 181, 73, 182, 209, 188, 3, 248, 41, 70,
];

/// Bytes of the system program's identity,
/// `11111111111111111111111111111111`.
pub const SYSTEM_PROGRAM_ID: [u8; 32] = [
    0, 0, 0, 0, 0, 0, 0, 0, 0, 0, 0, 0, 0, 0, 0, 0,
    0, 0, 0, 0, 0, 0, 0, 0, 0, 0, 0, 0, 0, 0, 0, 0,
];

/// Bytes of the identity of the rent sysvar,
/// `SysvarRent111111111111111111111111111111111`.
pub const RENT_SYSVAR_ID: [u8; 32] = [
    6, 167, 213, 23, 25, 44, 92, 81, 33, 140, 201, 76, 61, 74, 241, 127,
    88, 218, 238, 8, 155, 161, 253, 68, 227, 219, 217, 138, 0, 0, 0, 0,
];

/// `spl_token::id`: the identity that the token program declares for itself.
#[verifier::external_body]
pub(crate) fn token_program_id() -> (id: Pubkey)
    ensures
        id.bytes == TOKEN_PROGRAM_ID,
{
    Pubkey { bytes: spl_token::id().to_bytes() }
}

/// `spl_associated_token_account::id`: the identity that the associated
/// token account program declares for itself.
#[verifier::external_body]
pub(crate) fn associated_token_program_id() -> (id: Pubkey)
    ensures
        id.bytes == ASSOCIATED_TOKEN_PROGRAM_ID,
{
    Pubkey { bytes: spl_associated_token_account::id().to_bytes() }
}

/// `metaplex_token_metadata::id`: the identity that the token metadata
/// program declares for itself.
#[verifier::external_body]
pub(crate) fn metadata_program_id() -> (id: Pubkey)
    ensures
        id.bytes == METADATA_PROGRAM_ID,
{
    Pubkey { bytes: metaplex_token_metadata::id().to_bytes() }
}

/// Seeds of the token account that the token ledger associates with a wallet
/// and a mint.
pub open spec fn associated_token_seeds(wallet: Seq<u8>, mint: Seq<u8>) -> Seq<Seq<u8>> {
    seq![wallet, TOKEN_PROGRAM_ID@, mint]
}

/// Address of the canonical token account of `wallet` for `mint`: the one
/// derived from those seeds for the associated token account program.
pub open spec fn associated_token_address(wallet: Seq<u8>, mint: Seq<u8>) -> Option<Seq<u8>> {
    match derived_address(associated_token_seeds(wallet, mint), ASSOCIATED_TOKEN_PROGRAM_ID@) {
        Some((address, _)) => Some(address),
        None => None,
    }
}

/// The address of a lookup as a value of the model.
pub open spec fn address_view(address: Option<Pubkey>) -> Option<Seq<u8>> {
    match address {
        Some(key) => Some(key@),
        None => None,
    }
}

/// Derives the address of the canonical token account of `wallet` for `mint`.
pub fn get_associated_token_address(wallet: &Pubkey, mint: &Pubkey) -> (address: Option<Pubkey>)
    ensures
        address_view(address) == associated_token_address(wallet@, mint@),
{
    let token_program = token_program_id();
    let owner = associated_token_program_id();
    let seeds: [&[u8]; 3] = [wallet.as_ref(), token_program.as_ref(), mint.as_ref()];
    let path = seeds.as_slice();
    assert(seeds_view(path) =~= associated_token_seeds(wallet@, mint@));
    let found = find_program_address(path, &owner);
    match found {
        Some((address, _)) => Some(address),
        None => None,
    }
}

} // verus!
