//! Error types.

use vstd::prelude::*;
use vstd::std_specs::convert::FromSpecImpl;

verus! {

/// Errors that the custody program itself raises.
#[derive(Clone, Copy, Debug, PartialEq, Eq, Structural)]
pub enum NftError {
    /// The metadata record does not describe the supplied mint.
    MetadataMismatch,
    /// The master edition record is of the wrong kind or has already issued copies.
    WrongEdition,
    /// The custody address is missing from the creators of the collection.
    SatelliteMustListAmongCreators,
    /// Copies of the master edition remain to be issued.
    OngoingSales,
    /// The token account does not hold the master edition.
    NotOwned,
}

/// Reasons an operation fails.
#[derive(Clone, Copy, Debug, PartialEq, Eq, Structural)]
pub enum ProgramError {
    /// A failure of this program, by the code of its [`NftError`].
    Custom(u32),
    /// The instruction payload is malformed or names no known operation.
    InvalidInstructionData,
    /// The data of an account does not hold the token account expected there.
    InvalidAccountData,
    /// The authority did not sign, or is not the authority on record.
    MissingRequiredSignature,
    /// Fewer accounts were supplied than the operation names.
    NotEnoughAccountKeys,
    /// An account is not at the address derived for its role.
    InvalidSeeds,
    /// A failure reported by the library of another program while it read a
    /// record, by that failure's numeric code.
    Foreign(u64),
}

impl NftError {
    /// The code of each error: its position in the declaration.
    pub open spec fn spec_code(self) -> u32 {
        match self {
            NftError::MetadataMismatch => 0,
            NftError::WrongEdition => 1,
            NftError::SatelliteMustListAmongCreators => 2,
            NftError::OngoingSales => 3,
            NftError::NotOwned => 4,
        }
    }

    /// The label of each error.
    pub open spec fn spec_message(self) -> Seq<char> {
        match self {
            NftError::MetadataMismatch => "Metadata differs from Mint provided"@,
            NftError::WrongEdition => "Wrong NFT Edition or Master edition already used"@,
            NftError::SatelliteMustListAmongCreators =>
                "Satellite must be listed as one of the creators"@,
            NftError::OngoingSales => "Sales not ended for given Master Edition"@,
            NftError::NotOwned => "Master edition not owned"@,
        }
    }

    /// The numeric code under which this error is reported.
    #[verifier::when_used_as_spec(spec_code)]
    pub fn code(self) -> (code: u32)
        ensures
            code == self.spec_code(),
            code < 5,
    {
        match self {
            NftError::MetadataMismatch => 0,
            NftError::WrongEdition => 1,
            NftError::SatelliteMustListAmongCreators => 2,
            NftError::OngoingSales => 3,
            NftError::NotOwned => 4,
        }
    }

    /// The error with the given code, if there is one.
    pub fn from_code(code: u32) -> (found: Option<NftError>)
        ensures
            found matches Some(e) ==> e.spec_code() == code,
            found is None <==> code >= 5,
    {
        match code {
            0 => Some(NftError::MetadataMismatch),
            1 => Some(NftError::WrongEdition),
            2 => Some(NftError::SatelliteMustListAmongCreators),
            3 => Some(NftError::OngoingSales),
            4 => Some(NftError::NotOwned),
            _ => None,
        }
    }

    /// The human-readable label of this error.
    pub fn message(self) -> (label: &'static str)
        ensures
            label@ == self.spec_message(),
    {
        match self {
            NftError::MetadataMismatch => "Metadata differs from Mint provided",
            NftError::WrongEdition => "Wrong NFT Edition or Master edition already used",
            NftError::SatelliteMustListAmongCreators =>
                "Satellite must be listed as one of the creators",
            NftError::OngoingSales => "Sales not ended for given Master Edition",
            NftError::NotOwned => "Master edition not owned",
        }
    }

    /// The name under which errors of this type are decoded.
    pub fn type_of() -> (name: &'static str)
        ensures
            name@ == "NftError"@,
    {
        "NftError"
    }
}

/// The failure under which an error of this program is reported.
pub open spec fn custom(e: NftError) -> ProgramError {
    ProgramError::Custom(e.spec_code())
}

impl From<NftError> for ProgramError {
    fn from(e: NftError) -> (error: ProgramError) {
        ProgramError::Custom(e.code())
    }
}

impl FromSpecImpl<NftError> for ProgramError {
    open spec fn obeys_from_spec() -> bool {
        true
    }

    open spec fn from_spec(e: NftError) -> ProgramError {
        custom(e)
    }
}

/// Code of a custom failure whose own code is zero. The codes of the
/// built-in failures occupy the upper 32 bits.
pub const CUSTOM_ZERO: u64 = 0x1_0000_0000;

pub const INVALID_INSTRUCTION_DATA: u64 = 0x3_0000_0000;

pub const INVALID_ACCOUNT_DATA: u64 = 0x4_0000_0000;

pub const MISSING_REQUIRED_SIGNATURES: u64 = 0x8_0000_0000;

pub const NOT_ENOUGH_ACCOUNT_KEYS: u64 = 0xb_0000_0000;

pub const INVALID_SEEDS: u64 = 0xe_0000_0000;

impl ProgramError {
    /// The numeric code of each failure. A custom code of zero is told apart
    /// from success by the first built-in code.
    pub open spec fn spec_code(self) -> u64 {
        match self {
            ProgramError::Custom(code) => if code == 0 {
                CUSTOM_ZERO
            } else {
                code as u64
            },
            ProgramError::InvalidInstructionData => INVALID_INSTRUCTION_DATA,
            ProgramError::InvalidAccountData => INVALID_ACCOUNT_DATA,
            ProgramError::MissingRequiredSignature => MISSING_REQUIRED_SIGNATURES,
            ProgramError::NotEnoughAccountKeys => NOT_ENOUGH_ACCOUNT_KEYS,
            ProgramError::InvalidSeeds => INVALID_SEEDS,
            ProgramError::Foreign(code) => code,
        }
    }

    /// The stable numeric code under which this failure is reported.
    #[verifier::when_used_as_spec(spec_code)]
    pub fn code(self) -> (code: u64)
        ensures
            code == self.spec_code(),
    {
        match self {
            ProgramError::Custom(code) => if code == 0 {
                CUSTOM_ZERO
            } else {
                code as u64
            },
            ProgramError::InvalidInstructionData => INVALID_INSTRUCTION_DATA,
            ProgramError::InvalidAccountData => INVALID_ACCOUNT_DATA,
            ProgramError::MissingRequiredSignature => MISSING_REQUIRED_SIGNATURES,
            ProgramError::NotEnoughAccountKeys => NOT_ENOUGH_ACCOUNT_KEYS,
            ProgramError::InvalidSeeds => INVALID_SEEDS,
            ProgramError::Foreign(code) => code,
        }
    }
}

/// The codes of this program's errors are pairwise different, so a reported
/// code names one error.
pub proof fn lemma_code_names_one_error(a: NftError, b: NftError)
    requires
        a.spec_code() == b.spec_code(),
    ensures
        a == b,
{
}

/// Reading an error back from its own code gives that error.
pub proof fn lemma_code_round_trip(e: NftError, found: Option<NftError>)
    requires
        found matches Some(back) ==> back.spec_code() == e.spec_code(),
        found is None <==> e.spec_code() >= 5,
    ensures
        found == Some(e),
{
}

} // verus!
