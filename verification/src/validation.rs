//! The checks that stand between a request and a change of custody.
//!
//! Nothing that an account holds points to another account in a way that
//! cannot be forged, so each relation between the accounts of an operation is
//! established here: by comparing identities, by deriving the address at
//! which a record has to be, and by reading the records. A check that fails
//! ends the operation with its error; no later check is made.

use crate::error::{custom, NftError, ProgramError};
use crate::programs::address_view;
use crate::pubkey::{check_derivation, derivation_outcome, found_view, Pubkey};
use crate::state::{
    keys_view, token_account_result_view, MasterEdition, Metadata, MetadataView, TokenAccount,
    TokenAccountView, MASTER_EDITION_V2,
};
use vstd::prelude::*;

verus! {

/// What is known of the accounts of a custody operation when it is judged:
/// what the transaction says of each, what the records hold, and the
/// addresses at which the records have to be.
#[derive(Debug, PartialEq, Eq)]
pub struct CustodyFacts {
    /// The authority that asks for the operation.
    pub authority: Pubkey,
    /// Whether the authority signed the transaction.
    pub authority_signed: bool,
    /// The mint of the master edition.
    pub mint: Pubkey,
    /// The metadata that was supplied for the mint.
    pub metadata: Metadata,
    /// The account supplied as the master edition of the mint.
    pub master_edition_address: Pubkey,
    /// The address derived for the master edition of the mint.
    pub master_edition_derived: Option<(Pubkey, u8)>,
    /// The master edition read from the supplied account.
    pub master_edition: Result<MasterEdition, ProgramError>,
    /// The account supplied as the token account of the authority.
    pub token_account_address: Pubkey,
    /// The address of the canonical token account of the authority for the
    /// mint.
    pub token_account_canonical: Option<Pubkey>,
    /// The token account read from the supplied account.
    pub token_account: Result<TokenAccount, ProgramError>,
    /// The account supplied as the custody address.
    pub custody_address: Pubkey,
    /// The custody address derived for the program.
    pub custody_derived: Option<(Pubkey, u8)>,
}

/// [`CustodyFacts`] as a value of the model.
pub struct CustodyFactsView {
    pub authority: Seq<u8>,
    pub authority_signed: bool,
    pub mint: Seq<u8>,
    pub metadata: MetadataView,
    pub master_edition_address: Seq<u8>,
    pub master_edition_derived: Option<(Seq<u8>, u8)>,
    pub master_edition: Result<MasterEdition, ProgramError>,
    pub token_account_address: Seq<u8>,
    pub token_account_canonical: Option<Seq<u8>>,
    pub token_account: Result<TokenAccountView, ProgramError>,
    pub custody_address: Seq<u8>,
    pub custody_derived: Option<(Seq<u8>, u8)>,
}

impl View for CustodyFacts {
    type V = CustodyFactsView;

    open spec fn view(&self) -> CustodyFactsView {
        CustodyFactsView {
            authority: self.authority@,
            authority_signed: self.authority_signed,
            mint: self.mint@,
            metadata: self.metadata@,
            master_edition_address: self.master_edition_address@,
            master_edition_derived: found_view(self.master_edition_derived),
            master_edition: self.master_edition,
            token_account_address: self.token_account_address@,
            token_account_canonical: address_view(self.token_account_canonical),
            token_account: token_account_result_view(self.token_account),
            custody_address: self.custody_address@,
            custody_derived: found_view(self.custody_derived),
        }
    }
}

/// The authority signed, and is the update authority on record.
pub open spec fn authority_accepted(f: CustodyFactsView) -> bool {
    f.authority_signed && f.metadata.update_authority == f.authority
}

/// The metadata describes the mint.
pub open spec fn metadata_describes_mint(f: CustodyFactsView) -> bool {
    f.metadata.mint == f.mint
}

/// The supplied master edition account is at the address derived for the
/// master edition of the mint.
pub open spec fn master_edition_verified(f: CustodyFactsView) -> bool {
    derivation_outcome(f.master_edition_derived, f.master_edition_address) is Ok
}

/// The record is a master edition in the current layout.
pub open spec fn is_master_edition(master: MasterEdition) -> bool {
    master.key == MASTER_EDITION_V2
}

/// The master edition has issued no copy.
pub open spec fn master_edition_unused(f: CustodyFactsView) -> bool {
    f.master_edition matches Ok(master) && is_master_edition(master) && master.supply == 0
}

/// The master edition has issued every copy that its bound allows, or has
/// no bound.
pub open spec fn sales_ended(f: CustodyFactsView) -> bool {
    f.master_edition matches Ok(master) && is_master_edition(master) && (master.max_supply
        matches Some(max_supply) ==> master.supply == max_supply)
}

/// Where the metadata lists creators, the custody address is one of them.
pub open spec fn custody_listed(f: CustodyFactsView) -> bool {
    f.metadata.creators matches Some(creators) ==> creators.contains(f.custody_address)
}

/// The supplied token account is the canonical one of the authority for the
/// mint.
pub open spec fn token_account_verified(f: CustodyFactsView) -> bool {
    f.token_account_canonical == Some(f.token_account_address)
}

/// The supplied custody account is at the custody address of the program.
pub open spec fn custody_verified(f: CustodyFactsView) -> bool {
    derivation_outcome(f.custody_derived, f.custody_address) is Ok
}

/// What the checks before a stake return. They are made in this order, and
/// the first that fails decides:
///
/// 1. the authority signed and is the update authority on record, else
///    `MissingRequiredSignature`;
/// 2. the metadata describes the mint, else `MetadataMismatch`;
/// 3. the master edition account is at its derived address, else
///    `InvalidSeeds`;
/// 4. the master edition was read, is of the current kind and has issued no
///    copy, else the failure of the reading or `WrongEdition`;
/// 5. the custody address is among the creators, where any are listed, else
///    `SatelliteMustListAmongCreators`;
/// 6. the token account is the canonical one of the authority, else
///    `InvalidSeeds`;
/// 7. the token account was read and holds at least one token, else the
///    failure of the reading or `NotOwned`;
/// 8. the custody account is at the custody address, else `InvalidSeeds`.
pub open spec fn stake_verdict(f: CustodyFactsView) -> Result<(), ProgramError> {
    if !authority_accepted(f) {
        Err(ProgramError::MissingRequiredSignature)
    } else if !metadata_describes_mint(f) {
        Err(custom(NftError::MetadataMismatch))
    } else if !master_edition_verified(f) {
        Err(ProgramError::InvalidSeeds)
    } else if f.master_edition is Err {
        Err(f.master_edition->Err_0)
    } else if !master_edition_unused(f) {
        Err(custom(NftError::WrongEdition))
    } else if !custody_listed(f) {
        Err(custom(NftError::SatelliteMustListAmongCreators))
    } else if !token_account_verified(f) {
        Err(ProgramError::InvalidSeeds)
    } else if f.token_account is Err {
        Err(f.token_account->Err_0)
    } else if f.token_account->Ok_0.amount < 1 {
        Err(custom(NftError::NotOwned))
    } else if !custody_verified(f) {
        Err(ProgramError::InvalidSeeds)
    } else {
        Ok(())
    }
}

/// What the checks before an unstake return: the bump seed of the custody
/// address where all pass. They are those of a stake, but for three: the
/// master edition may have issued copies, and must have issued all where it
/// has a bound, else `WrongEdition` for a record of another kind and
/// `OngoingSales` for copies that remain; the creators are not looked at;
/// and the token account must hold exactly one token.
pub open spec fn unstake_verdict(f: CustodyFactsView) -> Result<u8, ProgramError> {
    if !authority_accepted(f) {
        Err(ProgramError::MissingRequiredSignature)
    } else if !metadata_describes_mint(f) {
        Err(custom(NftError::MetadataMismatch))
    } else if !master_edition_verified(f) {
        Err(ProgramError::InvalidSeeds)
    } else if f.master_edition is Err {
        Err(f.master_edition->Err_0)
    } else if !is_master_edition(f.master_edition->Ok_0) {
        Err(custom(NftError::WrongEdition))
    } else if !sales_ended(f) {
        Err(custom(NftError::OngoingSales))
    } else if !token_account_verified(f) {
        Err(ProgramError::InvalidSeeds)
    } else if f.token_account is Err {
        Err(f.token_account->Err_0)
    } else if f.token_account->Ok_0.amount != 1 {
        Err(custom(NftError::NotOwned))
    } else {
        derivation_outcome(f.custody_derived, f.custody_address)
    }
}

/// Whether `key` is one of `creators`.
fn is_listed(creators: &Vec<Pubkey>, key: &Pubkey) -> (found: bool)
    ensures
        found == keys_view(creators@).contains(key@),
{
    let mut i: usize = 0;
    while i < creators.len()
        invariant
            i <= creators.len(),
            forall|j: int| 0 <= j < i ==> keys_view(creators@)[j] != key@,
        decreases creators.len() - i,
    {
        if creators[i] == *key {
            assert(keys_view(creators@)[i as int] == key@);
            return true;
        }
        i += 1;
    }
    false
}

/// The checks that a stake and an unstake share before they look at the
/// record of the master edition.
fn validate_addresses(facts: &CustodyFacts) -> (r: Result<MasterEdition, ProgramError>)
    ensures
        r == if !authority_accepted(facts@) {
            Err::<MasterEdition, ProgramError>(ProgramError::MissingRequiredSignature)
        } else if !metadata_describes_mint(facts@) {
            Err(custom(NftError::MetadataMismatch))
        } else if !master_edition_verified(facts@) {
            Err(ProgramError::InvalidSeeds)
        } else {
            facts@.master_edition
        },
{
    if !facts.authority_signed || facts.metadata.update_authority != facts.authority {
        return Err(ProgramError::MissingRequiredSignature);
    }
    if facts.metadata.mint != facts.mint {
        return Err(ProgramError::from(NftError::MetadataMismatch));
    }
    if check_derivation(facts.master_edition_derived, &facts.master_edition_address).is_err() {
        return Err(ProgramError::InvalidSeeds);
    }
    facts.master_edition
}

/// Whether the supplied token account is the canonical one.
fn is_canonical(facts: &CustodyFacts) -> (r: bool)
    ensures
        r == token_account_verified(facts@),
{
    match facts.token_account_canonical {
        Some(address) => address == facts.token_account_address,
        None => false,
    }
}

/// Decides whether a master edition may be placed in custody.
pub fn validate_for_stake(facts: &CustodyFacts) -> (r: Result<(), ProgramError>)
    ensures
        r == stake_verdict(facts@),
{
    let master = validate_addresses(facts)?;
    if master.key != MASTER_EDITION_V2 || master.supply > 0 {
        return Err(ProgramError::from(NftError::WrongEdition));
    }
    if let Some(creators) = &facts.metadata.creators {
        if !is_listed(creators, &facts.custody_address) {
            return Err(ProgramError::from(NftError::SatelliteMustListAmongCreators));
        }
    }
    if !is_canonical(facts) {
        return Err(ProgramError::InvalidSeeds);
    }
    let token_account = facts.token_account?;
    if token_account.amount < 1 {
        return Err(ProgramError::from(NftError::NotOwned));
    }
    match check_derivation(facts.custody_derived, &facts.custody_address) {
        Ok(_) => Ok(()),
        Err(e) => Err(e),
    }
}

/// Decides whether a master edition may be taken out of custody, and
/// returns the bump seed with which the program acts as the custody address.
pub fn validate_for_unstake(facts: &CustodyFacts) -> (r: Result<u8, ProgramError>)
    ensures
        r == unstake_verdict(facts@),
{
    let master = validate_addresses(facts)?;
    if master.key != MASTER_EDITION_V2 {
        return Err(ProgramError::from(NftError::WrongEdition));
    }
    if let Some(max_supply) = master.max_supply {
        if master.supply != max_supply {
            return Err(ProgramError::from(NftError::OngoingSales));
        }
    }
    if !is_canonical(facts) {
        return Err(ProgramError::InvalidSeeds);
    }
    let token_account = facts.token_account?;
    if token_account.amount != 1 {
        return Err(ProgramError::from(NftError::NotOwned));
    }
    check_derivation(facts.custody_derived, &facts.custody_address)
}

/// Only the update authority on record, signing itself, places a master
/// edition in custody or takes it out: every other request fails with
/// `MissingRequiredSignature`, whatever else holds.
pub proof fn lemma_only_the_recorded_authority_is_accepted(f: CustodyFactsView)
    requires
        !f.authority_signed || f.metadata.update_authority != f.authority,
    ensures
        stake_verdict(f) == Err::<(), ProgramError>(ProgramError::MissingRequiredSignature),
        unstake_verdict(f) == Err::<u8, ProgramError>(ProgramError::MissingRequiredSignature),
{
}

/// A stake is allowed exactly when every check passes; in particular only
/// for a token account that holds at least one token.
pub proof fn lemma_stake_allowed_iff_all_checks_pass(f: CustodyFactsView)
    ensures
        stake_verdict(f) is Ok <==> {
            &&& authority_accepted(f)
            &&& metadata_describes_mint(f)
            &&& master_edition_verified(f)
            &&& master_edition_unused(f)
            &&& custody_listed(f)
            &&& token_account_verified(f)
            &&& f.token_account matches Ok(account) && account.amount >= 1
            &&& custody_verified(f)
        },
{
}

/// A token account that holds nothing is never placed in custody.
pub proof fn lemma_stake_refuses_empty_account(f: CustodyFactsView)
    requires
        f.token_account matches Ok(account) && account.amount == 0,
    ensures
        stake_verdict(f) is Err,
{
}

/// Where the checks before the balance pass, a stake of a token account that
/// holds nothing fails with `NotOwned`, whatever the custody account is.
pub proof fn lemma_stake_of_empty_account_is_not_owned(f: CustodyFactsView)
    requires
        authority_accepted(f),
        metadata_describes_mint(f),
        master_edition_verified(f),
        master_edition_unused(f),
        custody_listed(f),
        token_account_verified(f),
        f.token_account matches Ok(account) && account.amount == 0,
    ensures
        stake_verdict(f) == Err::<(), ProgramError>(custom(NftError::NotOwned)),
{
}

/// Where the checks before the creators pass and the custody address is
/// not among the creators listed, a stake fails with
/// `SatelliteMustListAmongCreators`, whatever the token account holds.
pub proof fn lemma_stake_without_listing_is_refused(f: CustodyFactsView)
    requires
        authority_accepted(f),
        metadata_describes_mint(f),
        master_edition_verified(f),
        master_edition_unused(f),
        !custody_listed(f),
    ensures
        stake_verdict(f) == Err::<(), ProgramError>(
            custom(NftError::SatelliteMustListAmongCreators),
        ),
{
}

/// An unstake is allowed exactly when every one of its checks passes; in
/// particular only once every copy has been issued, or where there is no
/// bound, and only for a token account that holds exactly one token. The
/// bump seed returned is that of the custody address.
pub proof fn lemma_unstake_allowed_iff_all_checks_pass(f: CustodyFactsView)
    ensures
        unstake_verdict(f) is Ok <==> {
            &&& authority_accepted(f)
            &&& metadata_describes_mint(f)
            &&& master_edition_verified(f)
            &&& sales_ended(f)
            &&& token_account_verified(f)
            &&& f.token_account matches Ok(account) && account.amount == 1
            &&& custody_verified(f)
        },
        unstake_verdict(f) matches Ok(bump) ==> f.custody_derived == Some((f.custody_address, bump)),
{
}

/// Where the checks before the master edition pass, an unstake fails with
/// `OngoingSales` while fewer copies have been issued than the bound allows.
pub proof fn lemma_unstake_during_sales_is_refused(f: CustodyFactsView)
    requires
        authority_accepted(f),
        metadata_describes_mint(f),
        master_edition_verified(f),
        f.master_edition matches Ok(master) && is_master_edition(master) && (master.max_supply
            matches Some(max_supply) && master.supply < max_supply),
    ensures
        unstake_verdict(f) == Err::<u8, ProgramError>(custom(NftError::OngoingSales)),
{
}

/// While copies remain to be issued an unstake never succeeds.
pub proof fn lemma_unstake_never_succeeds_during_sales(f: CustodyFactsView)
    requires
        f.master_edition matches Ok(master) && (master.max_supply matches Some(max_supply)
            && master.supply < max_supply),
    ensures
        unstake_verdict(f) is Err,
{
}

/// A master edition that has issued a copy cannot be staked, and one that
/// still has copies to issue cannot be unstaked: with a bound above zero no
/// state of the record allows both.
pub proof fn lemma_stake_and_unstake_exclude_each_other(f: CustodyFactsView)
    requires
        f.master_edition matches Ok(master) && (master.max_supply matches Some(max_supply)
            && max_supply > 0),
    ensures
        !(stake_verdict(f) is Ok && unstake_verdict(f) is Ok),
{
}

} // verus!
