//! Identities and the addresses derived from them.

use crate::account_info::AccountInfo;
use crate::error::ProgramError;
use vstd::prelude::*;
use vstd::std_specs::cmp::PartialEqSpecImpl;

verus! {

/// A fixed-size public identifier of a mint, an account, a program or a
/// derived address. Two identities are the same when their bytes are.
#[derive(Clone, Copy, Debug, Hash)]
pub struct Pubkey {
    pub bytes: [u8; 32],
}

impl View for Pubkey {
    type V = Seq<u8>;

    open spec fn view(&self) -> Seq<u8> {
        self.bytes@
    }
}

impl PartialEq for Pubkey {
    fn eq(&self, other: &Pubkey) -> (r: bool) {
        let mut i: usize = 0;
        while i < 32
            invariant
                i <= 32,
                forall|j: int| 0 <= j < i ==> self.bytes[j] == other.bytes[j],
            decreases 32 - i,
        {
            if self.bytes[i] != other.bytes[i] {
                return false;
            }
            i += 1;
        }
        assert(self.bytes@ =~= other.bytes@);
        true
    }
}

impl PartialEqSpecImpl for Pubkey {
    open spec fn obeys_eq_spec() -> bool {
        true
    }

    open spec fn eq_spec(&self, other: &Pubkey) -> bool {
        self@ == other@
    }
}

impl Eq for Pubkey {

}

impl Pubkey {
    /// The identity with the given bytes.
    pub fn new_from_array(bytes: [u8; 32]) -> (key: Pubkey)
        ensures
            key.bytes == bytes,
    {
        Pubkey { bytes }
    }

    /// The bytes of the identity.
    pub fn to_bytes(&self) -> (bytes: [u8; 32])
        ensures
            bytes == self.bytes,
    {
        self.bytes
    }

    /// The bytes of the identity, as a seed takes them.
    pub fn as_ref(&self) -> (bytes: &[u8])
        ensures
            bytes@ == self@,
    {
        self.bytes.as_slice()
    }
}

/// Identities with the same bytes are the same identity.
pub proof fn lemma_same_bytes_same_key(a: Pubkey, b: Pubkey)
    requires
        a@ == b@,
    ensures
        a == b,
{
    broadcast use vstd::array::group_array_axioms;

    assert(a.bytes =~= b.bytes);
}

/// Most seeds a derivation takes, the bump seed included.
pub const MAX_SEEDS: usize = 16;

/// Most bytes in one seed.
pub const MAX_SEED_LEN: usize = 32;

/// The address that the runtime derives from `seeds` for the program
/// `program_id`, with the bump seed that completes the derivation; `None`
/// where no bump seed gives an address off the curve.
pub uninterp spec fn derived_address(seeds: Seq<Seq<u8>>, program_id: Seq<u8>) -> Option<
    (Seq<u8>, u8),
>;

/// The seeds in `path` as a sequence of byte strings.
pub open spec fn seeds_view(path: &[&[u8]]) -> Seq<Seq<u8>> {
    Seq::new(path@.len(), |i: int| path@[i]@)
}

/// Whether `seeds` are more, or longer, than a derivation takes.
pub open spec fn seeds_exceed_limits(seeds: Seq<Seq<u8>>) -> bool {
    seeds.len() >= MAX_SEEDS || exists|i: int| 0 <= i < seeds.len() && seeds[i].len() > MAX_SEED_LEN
}

/// The derivation `found` as a value of the model.
pub open spec fn found_view(found: Option<(Pubkey, u8)>) -> Option<(Seq<u8>, u8)> {
    match found {
        Some((address, bump)) => Some((address@, bump)),
        None => None,
    }
}

/// `solana_program::pubkey::Pubkey::try_find_program_address`: searches the
/// bump seeds from 255 downwards for the first that, hashed after `seeds`
/// and with the program's identity, gives an address off the curve. The
/// result depends on the arguments alone. It is `None` where the search finds
/// nothing, and always where there are 16 seeds or more or one is longer
/// than 32 bytes.
#[verifier::external_body]
pub(crate) fn find_program_address(seeds: &[&[u8]], program_id: &Pubkey) -> (found: Option<
    (Pubkey, u8),
>)
    ensures
        found_view(found) == derived_address(seeds_view(seeds), program_id@),
        seeds_exceed_limits(seeds_view(seeds)) ==> found is None,
{
    let owner = solana_program::pubkey::Pubkey::new_from_array(program_id.bytes);
    match solana_program::pubkey::Pubkey::try_find_program_address(seeds, &owner) {
        Some((address, bump)) => Some((Pubkey { bytes: address.to_bytes() }, bump)),
        None => None,
    }
}

/// What verifying a claimed address against a derivation returns: the bump
/// seed where the derived address is the claimed one, `InvalidSeeds` where it
/// is another or there is none.
pub open spec fn derivation_outcome(found: Option<(Seq<u8>, u8)>, claimed: Seq<u8>) -> Result<
    u8,
    ProgramError,
> {
    match found {
        Some((address, bump)) => if address == claimed {
            Ok(bump)
        } else {
            Err(ProgramError::InvalidSeeds)
        },
        None => Err(ProgramError::InvalidSeeds),
    }
}

/// Decides whether `claimed` is the address that a derivation `found`.
pub fn check_derivation(found: Option<(Pubkey, u8)>, claimed: &Pubkey) -> (r: Result<
    u8,
    ProgramError,
>)
    ensures
        r == derivation_outcome(found_view(found), claimed@),
{
    match found {
        Some((address, bump)) => {
            if address == *claimed {
                Ok(bump)
            } else {
                Err(ProgramError::InvalidSeeds)
            }
        },
        None => Err(ProgramError::InvalidSeeds),
    }
}

/// Recomputes the address derived from `path` for `program_id` and confirms
/// that `account` is at it. Returns the bump seed, with which the program
/// can later act as that address.
pub fn assert_derivation(program_id: &Pubkey, account: &AccountInfo, path: &[&[u8]]) -> (r: Result<
    u8,
    ProgramError,
>)
    ensures
        r == derivation_outcome(derived_address(seeds_view(path), program_id@), account.key@),
{
    let found = find_program_address(path, program_id);
    check_derivation(found, &account.key)
}

/// Verifying a claim gives the same answer however often it is done: the
/// answer depends on the program, the seeds and the claimed address alone.
pub proof fn lemma_verification_repeats(
    program_id: Seq<u8>,
    claimed: Seq<u8>,
    seeds: Seq<Seq<u8>>,
    first: Result<u8, ProgramError>,
    second: Result<u8, ProgramError>,
)
    requires
        first == derivation_outcome(derived_address(seeds, program_id), claimed),
        second == derivation_outcome(derived_address(seeds, program_id), claimed),
    ensures
        first == second,
{
}

/// A claimed address that is not the derived one is refused with
/// `InvalidSeeds`.
pub proof fn lemma_mismatch_is_refused(found: Option<(Seq<u8>, u8)>, claimed: Seq<u8>)
    requires
        found matches Some((address, _)) ==> address != claimed,
    ensures
        derivation_outcome(found, claimed) == Err::<u8, ProgramError>(ProgramError::InvalidSeeds),
{
}

/// A claim is accepted only for the derived address, and the bump seed
/// returned is the one of the derivation.
pub proof fn lemma_accepted_claim_is_derived(
    found: Option<(Seq<u8>, u8)>,
    claimed: Seq<u8>,
    bump: u8,
)
    requires
        derivation_outcome(found, claimed) == Ok::<u8, ProgramError>(bump),
    ensures
        found == Some((claimed, bump)),
{
}

/// Where the seeds derive no address, every claim is refused.
pub proof fn lemma_no_address_is_refused(found: Option<(Seq<u8>, u8)>, claimed: Seq<u8>)
    requires
        found is None,
    ensures
        derivation_outcome(found, claimed) == Err::<u8, ProgramError>(ProgramError::InvalidSeeds),
{
}

} // verus!
