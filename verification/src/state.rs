//! The records that the custody program reads. Each is kept by another
//! program and read here from the data of the account that holds it.

use crate::account_info::AccountInfo;
use crate::error::ProgramError;
use crate::pubkey::Pubkey;
use solana_program::program_pack::Pack;
use vstd::bytes::spec_u64_from_le_bytes;
use vstd::prelude::*;

verus! {

/// Kind of a record that has not been written yet.
pub const UNINITIALIZED: u8 = 0;

/// Kind of record that holds metadata.
pub const METADATA_V1: u8 = 4;

/// Kind of record that holds a master edition in its current layout.
pub const MASTER_EDITION_V2: u8 = 6;

/// Number of bytes that a metadata record takes.
pub const METADATA_LEN: usize = 679;

/// Number of bytes that a master edition record takes.
pub const MASTER_EDITION_LEN: usize = 282;

/// Code under which the metadata program reports data that is not of the
/// kind or of the length of the record asked for.
pub const DATA_TYPE_MISMATCH: u64 = 63;

/// Code under which a failure to read a field of a record is reported.
pub const BORSH_IO_ERROR: u64 = 0xf_0000_0000;

/// Number of bytes that a token account takes.
pub const TOKEN_ACCOUNT_LEN: usize = 165;

/// What the custody program reads of the metadata of a mint.
#[derive(Clone, Debug, PartialEq, Eq)]
pub struct Metadata {
    /// Who may administer the record.
    pub update_authority: Pubkey,
    /// The mint that the record describes.
    pub mint: Pubkey,
    /// Identities of the creators, if the record lists any.
    pub creators: Option<Vec<Pubkey>>,
}

/// A [`Metadata`] as a value of the model.
pub struct MetadataView {
    pub update_authority: Seq<u8>,
    pub mint: Seq<u8>,
    pub creators: Option<Seq<Seq<u8>>>,
}

/// The identities in `keys`, each by its bytes.
pub open spec fn keys_view(keys: Seq<Pubkey>) -> Seq<Seq<u8>> {
    Seq::new(keys.len(), |i: int| keys[i]@)
}

impl View for Metadata {
    type V = MetadataView;

    open spec fn view(&self) -> MetadataView {
        MetadataView {
            update_authority: self.update_authority@,
            mint: self.mint@,
            creators: match self.creators {
                Some(list) => Some(keys_view(list@)),
                None => None,
            },
        }
    }
}

/// The issue counter of a master edition.
#[derive(Clone, Copy, Debug, PartialEq, Eq, Structural)]
pub struct MasterEdition {
    /// Kind of the record, as its first byte tells it.
    pub key: u8,
    /// Number of copies issued so far.
    pub supply: u64,
    /// Most copies that may be issued, if there is a bound.
    pub max_supply: Option<u64>,
}

/// What the custody program reads of a token account.
#[derive(Clone, Copy, Debug, PartialEq, Eq)]
pub struct TokenAccount {
    /// The mint whose tokens the account holds.
    pub mint: Pubkey,
    /// The authority over the account.
    pub owner: Pubkey,
    /// Number of tokens held.
    pub amount: u64,
}

/// A [`TokenAccount`] as a value of the model.
pub struct TokenAccountView {
    pub mint: Seq<u8>,
    pub owner: Seq<u8>,
    pub amount: u64,
}

impl View for TokenAccount {
    type V = TokenAccountView;

    open spec fn view(&self) -> TokenAccountView {
        TokenAccountView { mint: self.mint@, owner: self.owner@, amount: self.amount }
    }
}

/// What the metadata program's library reads from the data of a metadata
/// account: the update authority, the mint and the addresses of the creators
/// listed, or the code of the failure it reports.
pub uninterp spec fn metadata_decoding(data: Seq<u8>) -> Result<
    (Seq<u8>, Seq<u8>, Option<Seq<Seq<u8>>>),
    u64,
>;

/// What a reading of a metadata account returned, field by field.
pub open spec fn metadata_fields(r: Result<Metadata, u64>) -> Result<
    (Seq<u8>, Seq<u8>, Option<Seq<Seq<u8>>>),
    u64,
> {
    match r {
        Ok(m) => Ok((m@.update_authority, m@.mint, m@.creators)),
        Err(code) => Err(code),
    }
}

/// Whether `data` has the length `len` of a record and begins with its kind,
/// or with the kind of a record not yet written.
pub open spec fn record_shaped(data: Seq<u8>, kind: u8, len: usize) -> bool {
    data.len() == len && (data[0] == kind || data[0] == UNINITIALIZED)
}

/// `metaplex_token_metadata::state::Metadata::from_account_info`, on an
/// account that holds `data`: what it returns depends on the data alone. The
/// failure is handed on as the code that `solana_program` gives it. The call
/// is made on data of the length and kind of a metadata record; on empty
/// data it would panic.
#[verifier::external_body]
fn decode_metadata(data: &[u8]) -> (r: Result<Metadata, u64>)
    requires
        record_shaped(data@, METADATA_V1, METADATA_LEN),
    ensures
        metadata_fields(r) == metadata_decoding(data@),
{
    let (key, mut lamports, mut copy) = (solana_program::pubkey::Pubkey::default(), 0, data.to_vec());
    let info = solana_program::account_info::AccountInfo::new(
        &key, false, false, &mut lamports, &mut copy, &key, false, 0,
    );
    match metaplex_token_metadata::state::Metadata::from_account_info(&info) {
        Ok(m) => Ok(Metadata {
            update_authority: Pubkey { bytes: m.update_authority.to_bytes() },
            mint: Pubkey { bytes: m.mint.to_bytes() },
            creators: m.data.creators.map(|list| {
                list.iter().map(|c| Pubkey { bytes: c.address.to_bytes() }).collect()
            }),
        }),
        Err(e) => Err(u64::from(e)),
    }
}

/// The master edition that the first 18 bytes of `data` hold: the kind of
/// the record in the first byte; the copies issued in the next eight, least
/// significant byte first; then a tag, which is 0 where there is no bound
/// and 1 where the bound follows in eight bytes. Any other tag is a failure
/// to read, under the code `BORSH_IO_ERROR`.
pub open spec fn master_edition_fields(data: Seq<u8>) -> Result<MasterEdition, u64> {
    let supply = spec_u64_from_le_bytes(data.subrange(1, 9));
    if data[9] == 0 {
        Ok(MasterEdition { key: data[0], supply, max_supply: None })
    } else if data[9] == 1 {
        Ok(
            MasterEdition {
                key: data[0],
                supply,
                max_supply: Some(spec_u64_from_le_bytes(data.subrange(10, 18))),
            },
        )
    } else {
        Err(BORSH_IO_ERROR)
    }
}

/// `metaplex_token_metadata::state::MasterEditionV2::from_account_info`, on
/// an account that holds `data`, which has the length and kind of a master
/// edition record (on empty data the call would panic). The record is read
/// field by field from the front of the data: a byte for the kind, eight for
/// the copies issued, a tag byte and, after a tag of 1, eight bytes for the
/// bound. The only failure left is a tag above 1, handed on as the code that
/// `solana_program` gives it.
#[verifier::external_body]
fn decode_master_edition(data: &[u8]) -> (r: Result<MasterEdition, u64>)
    requires
        record_shaped(data@, MASTER_EDITION_V2, MASTER_EDITION_LEN),
    ensures
        r == master_edition_fields(data@),
{
    let (key, mut lamports, mut copy) = (solana_program::pubkey::Pubkey::default(), 0, data.to_vec());
    let info = solana_program::account_info::AccountInfo::new(
        &key, false, false, &mut lamports, &mut copy, &key, false, 0,
    );
    match metaplex_token_metadata::state::MasterEditionV2::from_account_info(&info) {
        Ok(m) => Ok(MasterEdition { key: m.key as u8, supply: m.supply, max_supply: m.max_supply }),
        Err(e) => Err(u64::from(e)),
    }
}

/// Whether the four bytes of `data` from `at` on are the tag of an optional
/// field: a one or a zero, then three zeroes.
pub open spec fn optional_tag_valid(data: Seq<u8>, at: int) -> bool {
    data[at] <= 1 && data[at + 1] == 0 && data[at + 2] == 0 && data[at + 3] == 0
}

/// Whether `data`, of 165 bytes or more, unpacks as a token account: the
/// tags of its three optional fields are valid, and so is its state.
pub open spec fn token_account_well_formed(data: Seq<u8>) -> bool {
    &&& optional_tag_valid(data, 72)
    &&& data[108] <= 2
    &&& optional_tag_valid(data, 109)
    &&& optional_tag_valid(data, 129)
}

/// The token account that the first 165 bytes of `data` hold.
pub open spec fn token_account_fields(data: Seq<u8>) -> TokenAccountView {
    TokenAccountView {
        mint: data.subrange(0, 32),
        owner: data.subrange(32, 64),
        amount: spec_u64_from_le_bytes(data.subrange(64, 72)),
    }
}

/// `spl_token::state::Account::unpack_from_slice`: reads a token account
/// from the first 165 bytes of `data`, which must be there. The mint is in
/// bytes 0 to 31, the owner in 32 to 63, the amount in 64 to 71, least
/// significant byte first. It fails on an invalid tag or state, always with
/// `InvalidAccountData`.
#[verifier::external_body]
fn unpack_token_account(data: &[u8]) -> (r: Option<TokenAccount>)
    requires
        data@.len() >= 165,
    ensures
        r is Some <==> token_account_well_formed(data@),
        r matches Some(account) ==> account@ == token_account_fields(data@),
{
    match spl_token::state::Account::unpack_from_slice(data) {
        Ok(account) => Some(TokenAccount {
            mint: Pubkey { bytes: account.mint.to_bytes() },
            owner: Pubkey { bytes: account.owner.to_bytes() },
            amount: account.amount,
        }),
        Err(_) => None,
    }
}

/// The metadata read from `data`, or why there is none: data of another
/// length or kind is a mismatch, and a failure of the metadata program's
/// library to read the fields is handed on.
pub open spec fn metadata_outcome(data: Seq<u8>) -> Result<MetadataView, ProgramError> {
    if !record_shaped(data, METADATA_V1, METADATA_LEN) {
        Err(ProgramError::Foreign(DATA_TYPE_MISMATCH))
    } else {
        match metadata_decoding(data) {
            Ok((update_authority, mint, creators)) => Ok(
                MetadataView { update_authority, mint, creators },
            ),
            Err(code) => Err(ProgramError::Foreign(code)),
        }
    }
}

/// The master edition read from `data`, or why there is none: data of
/// another length or kind is a mismatch, and an invalid tag of the bound is
/// a failure to read.
pub open spec fn master_edition_outcome(data: Seq<u8>) -> Result<MasterEdition, ProgramError> {
    if !record_shaped(data, MASTER_EDITION_V2, MASTER_EDITION_LEN) {
        Err(ProgramError::Foreign(DATA_TYPE_MISMATCH))
    } else {
        match master_edition_fields(data) {
            Ok(master) => Ok(master),
            Err(code) => Err(ProgramError::Foreign(code)),
        }
    }
}

/// The token account read from `data`, or `InvalidAccountData` where `data`
/// is too short or does not unpack.
pub open spec fn token_account_outcome(data: Seq<u8>) -> Result<TokenAccountView, ProgramError> {
    if data.len() >= TOKEN_ACCOUNT_LEN && token_account_well_formed(data) {
        Ok(token_account_fields(data))
    } else {
        Err(ProgramError::InvalidAccountData)
    }
}

/// A metadata lookup as a value of the model.
pub open spec fn metadata_result_view(r: Result<Metadata, ProgramError>) -> Result<
    MetadataView,
    ProgramError,
> {
    match r {
        Ok(m) => Ok(m@),
        Err(e) => Err(e),
    }
}

/// A token account lookup as a value of the model.
pub open spec fn token_account_result_view(r: Result<TokenAccount, ProgramError>) -> Result<
    TokenAccountView,
    ProgramError,
> {
    match r {
        Ok(account) => Ok(account@),
        Err(e) => Err(e),
    }
}

/// Whether `data` has the length of a record and begins with its kind.
fn is_record_shaped(data: &[u8], kind: u8, len: usize) -> (r: bool)
    requires
        len > 0,
    ensures
        r == record_shaped(data@, kind, len),
{
    data.len() == len && (data[0] == kind || data[0] == UNINITIALIZED)
}

impl Metadata {
    /// Reads the metadata that the account holds.
    pub fn from_account_info(a: &AccountInfo) -> (r: Result<Metadata, ProgramError>)
        ensures
            metadata_result_view(r) == metadata_outcome(a.data@),
    {
        if !is_record_shaped(a.data.as_slice(), METADATA_V1, METADATA_LEN) {
            return Err(ProgramError::Foreign(DATA_TYPE_MISMATCH));
        }
        match decode_metadata(a.data.as_slice()) {
            Ok(m) => Ok(m),
            Err(code) => Err(ProgramError::Foreign(code)),
        }
    }
}

impl MasterEdition {
    /// Reads the master edition that the account holds.
    pub fn from_account_info(a: &AccountInfo) -> (r: Result<MasterEdition, ProgramError>)
        ensures
            r == master_edition_outcome(a.data@),
    {
        if !is_record_shaped(a.data.as_slice(), MASTER_EDITION_V2, MASTER_EDITION_LEN) {
            return Err(ProgramError::Foreign(DATA_TYPE_MISMATCH));
        }
        match decode_master_edition(a.data.as_slice()) {
            Ok(m) => Ok(m),
            Err(code) => Err(ProgramError::Foreign(code)),
        }
    }
}

impl TokenAccount {
    /// Reads a token account from the first 165 bytes of `src`.
    pub fn unpack_from_slice(src: &[u8]) -> (r: Result<TokenAccount, ProgramError>)
        ensures
            token_account_result_view(r) == token_account_outcome(src@),
    {
        if src.len() < TOKEN_ACCOUNT_LEN {
            return Err(ProgramError::InvalidAccountData);
        }
        match unpack_token_account(src) {
            Some(account) => Ok(account),
            None => Err(ProgramError::InvalidAccountData),
        }
    }
}

/// No data reads both as metadata and as a master edition: an account of
/// one kind cannot be passed off as the other.
pub proof fn lemma_record_kinds_are_told_apart(data: Seq<u8>)
    ensures
        !(metadata_outcome(data) is Ok && master_edition_outcome(data) is Ok),
        metadata_outcome(data) is Ok ==> record_shaped(data, METADATA_V1, METADATA_LEN),
        master_edition_outcome(data) is Ok ==> record_shaped(
            data,
            MASTER_EDITION_V2,
            MASTER_EDITION_LEN,
        ),
{
}

/// Data too short for a token account is never read as one, so neither is
/// empty data.
pub proof fn lemma_short_data_is_no_token_account(data: Seq<u8>)
    requires
        data.len() < TOKEN_ACCOUNT_LEN,
    ensures
        token_account_outcome(data) == Err::<TokenAccountView, ProgramError>(
            ProgramError::InvalidAccountData,
        ),
{
}

/// A master edition that was read is of the current kind or not yet
/// written, and its fields are those at the front of the data.
pub proof fn lemma_master_edition_is_read_from_the_front(data: Seq<u8>)
    requires
        master_edition_outcome(data) is Ok,
    ensures
        data.len() == MASTER_EDITION_LEN,
        data[9] <= 1,
        master_edition_outcome(data)->Ok_0.key == data[0],
        master_edition_outcome(data)->Ok_0.key == MASTER_EDITION_V2 || master_edition_outcome(
            data,
        )->Ok_0.key == UNINITIALIZED,
        master_edition_outcome(data)->Ok_0.supply == spec_u64_from_le_bytes(data.subrange(1, 9)),
        master_edition_outcome(data)->Ok_0.max_supply is Some <==> data[9] == 1,
{
}

} // verus!
