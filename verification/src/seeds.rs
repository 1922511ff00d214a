//! The seeds from which the addresses of the protocol are derived. They are
//! never stored: an address is derived again whenever it is needed.

use crate::programs::{metadata_program_id, METADATA_PROGRAM_ID};
use crate::pubkey::{derived_address, find_program_address, found_view, seeds_view, Pubkey};
use vstd::prelude::*;
use vstd::slice::slice_to_vec;
use vstd::string::StringSliceAdditionalSpecFns;

verus! {

/// Label of the custody address.
pub const RELAYER_SEED: &'static str = "relayer";

/// First seed of every address of the metadata program.
pub const PREFIX: &'static str = "metadata";

/// Last seed of the address of an edition.
pub const EDITION: &'static str = "edition";

/// Number of copies whose issue one edition marker records.
pub const EDITION_MARKER_BIT_SIZE: u64 = 248;

/// Seeds of the custody address of the program `program_id`.
pub open spec fn custody_seeds(program_id: Seq<u8>) -> Seq<Seq<u8>> {
    seq![RELAYER_SEED.spec_bytes(), program_id]
}

/// Seeds of the master edition of `mint`.
pub open spec fn master_edition_seeds(mint: Seq<u8>) -> Seq<Seq<u8>> {
    seq![PREFIX.spec_bytes(), METADATA_PROGRAM_ID@, mint, EDITION.spec_bytes()]
}

/// The seeds with which the program signs as its custody address: those of
/// the address, then the bump seed.
pub open spec fn custody_signer_seeds(program_id: Seq<u8>, bump: u8) -> Seq<Seq<u8>> {
    seq![RELAYER_SEED.spec_bytes(), program_id, seq![bump]]
}

/// The decimal digits of `n` in ASCII, most significant first.
pub open spec fn decimal_digits(n: nat) -> Seq<u8>
    decreases n,
{
    if n < 10 {
        seq![(48 + n) as u8]
    } else {
        decimal_digits(n / 10).push((48 + n % 10) as u8)
    }
}

/// Seeds of the marker in which the metadata program `program_id` records
/// the issue of copy `edition` of the master of `mint`.
pub open spec fn edition_marker_seeds(program_id: Seq<u8>, mint: Seq<u8>, edition: u64) -> Seq<
    Seq<u8>,
> {
    seq![
        PREFIX.spec_bytes(),
        program_id,
        mint,
        EDITION.spec_bytes(),
        decimal_digits((edition / EDITION_MARKER_BIT_SIZE) as nat),
    ]
}

/// Byte strings, each by its bytes.
pub open spec fn byte_strings_view(strings: Seq<Vec<u8>>) -> Seq<Seq<u8>> {
    Seq::new(strings.len(), |i: int| strings[i]@)
}

/// Writes `n` in decimal digits.
pub fn decimal_bytes(n: u64) -> (digits: Vec<u8>)
    ensures
        digits@ == decimal_digits(n as nat),
{
    let mut digits: Vec<u8> = Vec::new();
    let mut rest: u64 = n;
    while rest >= 10
        invariant
            decimal_digits(n as nat) == decimal_digits(rest as nat) + digits@,
        decreases rest,
    {
        let digit: u8 = 48 + (rest % 10) as u8;
        let ghost before = digits@;
        digits.insert(0, digit);
        assert(decimal_digits(rest as nat) + before =~= decimal_digits((rest / 10) as nat)
            + digits@);
        rest = rest / 10;
    }
    let ghost before = digits@;
    digits.insert(0, 48 + rest as u8);
    assert(decimal_digits(rest as nat) + before =~= digits@);
    digits
}

/// Derives the custody address of the program `program_id`.
pub fn find_custody_address(program_id: &Pubkey) -> (found: Option<(Pubkey, u8)>)
    ensures
        found_view(found) == derived_address(custody_seeds(program_id@), program_id@),
{
    let seeds: [&[u8]; 2] = [RELAYER_SEED.as_bytes(), program_id.as_ref()];
    let path = seeds.as_slice();
    assert(seeds_view(path) =~= custody_seeds(program_id@));
    find_program_address(path, program_id)
}

/// Derives, for the program `program_id`, the address of the master edition
/// of `mint`.
pub fn find_master_edition_address(program_id: &Pubkey, mint: &Pubkey) -> (found: Option<
    (Pubkey, u8),
>)
    ensures
        found_view(found) == derived_address(master_edition_seeds(mint@), program_id@),
{
    let metadata_program = metadata_program_id();
    let seeds: [&[u8]; 4] = [
        PREFIX.as_bytes(),
        metadata_program.as_ref(),
        mint.as_ref(),
        EDITION.as_bytes(),
    ];
    let path = seeds.as_slice();
    assert(seeds_view(path) =~= master_edition_seeds(mint@));
    find_program_address(path, program_id)
}

/// Derives the address of the marker in which the metadata program
/// `program_id` records the issue of copy `edition` of the master of `mint`.
pub fn find_edition_marker_address(
    program_id: &Pubkey,
    mint: &Pubkey,
    edition: u64,
) -> (found: Option<(Pubkey, u8)>)
    ensures
        found_view(found) == derived_address(
            edition_marker_seeds(program_id@, mint@, edition),
            program_id@,
        ),
{
    let number = decimal_bytes(edition / EDITION_MARKER_BIT_SIZE);
    let seeds: [&[u8]; 5] = [
        PREFIX.as_bytes(),
        program_id.as_ref(),
        mint.as_ref(),
        EDITION.as_bytes(),
        number.as_slice(),
    ];
    let path = seeds.as_slice();
    assert(seeds_view(path) =~= edition_marker_seeds(program_id@, mint@, edition));
    find_program_address(path, program_id)
}

/// The seeds with which the program `program_id` signs as its custody
/// address, whose bump seed is `bump`.
pub fn signer_seeds(program_id: &Pubkey, bump: u8) -> (seeds: Vec<Vec<u8>>)
    ensures
        byte_strings_view(seeds@) == custody_signer_seeds(program_id@, bump),
{
    let mut last: Vec<u8> = Vec::new();
    last.push(bump);
    let mut seeds: Vec<Vec<u8>> = Vec::new();
    seeds.push(slice_to_vec(RELAYER_SEED.as_bytes()));
    seeds.push(slice_to_vec(program_id.as_ref()));
    seeds.push(last);
    assert(byte_strings_view(seeds@) =~= custody_signer_seeds(program_id@, bump));
    seeds
}

} // verus!
