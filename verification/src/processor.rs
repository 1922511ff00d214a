//! The operations of the custody program.
//!
//! Each operation reads the accounts it was given, checks them, and names
//! the one invocation of another program that carries it out. Nothing is
//! kept between operations: whether a master edition is in custody is read
//! from the records every time.

use crate::account_info::{accounts_view, AccountInfo, AccountInfoView};
use crate::error::ProgramError;
use crate::instruction::{readonly, NftInstruction};
use crate::invoke::{
    edition_mint_instruction, invocation_result_view, lemma_copy_numbers_give_different_requests,
    mint_edition_instruction, set_account_owner, set_owner_instruction, Invocation,
    InvocationView,
};
use crate::programs::{
    associated_token_address, get_associated_token_address, metadata_program_id,
    METADATA_PROGRAM_ID,
};
use crate::pubkey::{assert_derivation, derivation_outcome, derived_address, seeds_view, Pubkey};
use crate::seeds::{
    custody_seeds, custody_signer_seeds, edition_marker_seeds, find_custody_address,
    find_edition_marker_address, find_master_edition_address, master_edition_seeds, signer_seeds,
    RELAYER_SEED,
};
use crate::state::{
    keys_view, master_edition_outcome, metadata_outcome, token_account_outcome, MasterEdition,
    Metadata, MetadataView, TokenAccount,
};
use crate::validation::{
    stake_verdict, unstake_verdict, validate_for_stake, validate_for_unstake, CustodyFacts,
    CustodyFactsView,
};
use vstd::prelude::*;

verus! {

/// Number of accounts of a custody operation.
pub const CUSTODY_ACCOUNTS: usize = 7;

/// Number of accounts of a minting operation.
pub const MINT_ACCOUNTS: usize = 13;

/// What is known of the accounts of a custody operation of the program
/// `program_id`, whose metadata account holds `metadata`. The accounts are
/// taken by position: the mint, the token account, the custody address, the
/// authority, the metadata and the master edition.
pub open spec fn custody_facts(
    program_id: Seq<u8>,
    accounts: Seq<AccountInfoView>,
    metadata: MetadataView,
) -> CustodyFactsView {
    CustodyFactsView {
        authority: accounts[3].key,
        authority_signed: accounts[3].is_signer,
        mint: accounts[0].key,
        metadata,
        master_edition_address: accounts[5].key,
        master_edition_derived: derived_address(master_edition_seeds(accounts[0].key), program_id),
        master_edition: master_edition_outcome(accounts[5].data),
        token_account_address: accounts[1].key,
        token_account_canonical: associated_token_address(accounts[3].key, accounts[0].key),
        token_account: token_account_outcome(accounts[1].data),
        custody_address: accounts[2].key,
        custody_derived: derived_address(custody_seeds(program_id), program_id),
    }
}

/// The invocation that places a token account in custody: the authority
/// over the token account passes from the authority of the operation, who
/// signed the transaction, to the custody address.
pub open spec fn stake_invocation(accounts: Seq<AccountInfoView>) -> InvocationView {
    InvocationView {
        instruction: set_owner_instruction(accounts[1].key, accounts[2].key, accounts[3].key),
        accounts: seq![1usize, 2usize, 3usize, 6usize],
        signer_seeds: None,
    }
}

/// The invocation that hands a token account back: the authority over it
/// passes from the custody address, as which the program signs, to the
/// authority of the operation.
pub open spec fn unstake_invocation(
    program_id: Seq<u8>,
    accounts: Seq<AccountInfoView>,
    bump: u8,
) -> InvocationView {
    InvocationView {
        instruction: set_owner_instruction(accounts[1].key, accounts[3].key, accounts[2].key),
        accounts: seq![1usize, 3usize, 2usize, 6usize],
        signer_seeds: Some(custody_signer_seeds(program_id, bump)),
    }
}

/// What a stake returns: `NotEnoughAccountKeys` for fewer than seven
/// accounts, else the failure to read the metadata, else the first check
/// that fails, else the invocation.
pub open spec fn stake_outcome(program_id: Seq<u8>, accounts: Seq<AccountInfoView>) -> Result<
    InvocationView,
    ProgramError,
> {
    if accounts.len() < CUSTODY_ACCOUNTS {
        Err(ProgramError::NotEnoughAccountKeys)
    } else {
        match metadata_outcome(accounts[4].data) {
            Err(e) => Err(e),
            Ok(metadata) => match stake_verdict(custody_facts(program_id, accounts, metadata)) {
                Err(e) => Err(e),
                Ok(_) => Ok(stake_invocation(accounts)),
            },
        }
    }
}

/// What an unstake returns: as a stake, with the checks and the invocation
/// of an unstake.
pub open spec fn unstake_outcome(program_id: Seq<u8>, accounts: Seq<AccountInfoView>) -> Result<
    InvocationView,
    ProgramError,
> {
    if accounts.len() < CUSTODY_ACCOUNTS {
        Err(ProgramError::NotEnoughAccountKeys)
    } else {
        match metadata_outcome(accounts[4].data) {
            Err(e) => Err(e),
            Ok(metadata) => match unstake_verdict(custody_facts(program_id, accounts, metadata)) {
                Err(e) => Err(e),
                Ok(bump) => Ok(unstake_invocation(program_id, accounts, bump)),
            },
        }
    }
}

/// The identities handed to the metadata program's library for a minting
/// operation, in its order. The authority of the copy is named three times:
/// as mint authority, as payer and as update authority of the new metadata.
pub open spec fn mint_keys(accounts: Seq<AccountInfoView>) -> Seq<Seq<u8>> {
    seq![
        METADATA_PROGRAM_ID@,
        accounts[0].key,
        accounts[1].key,
        accounts[2].key,
        accounts[3].key,
        accounts[4].key,
        accounts[4].key,
        accounts[5].key,
        accounts[6].key,
        accounts[4].key,
        accounts[7].key,
        accounts[8].key,
    ]
}

/// The invocation that mints copy `edition`: the request to the metadata
/// program, with the custody address as owner of the master's token account,
/// as which the program signs.
pub open spec fn mint_invocation(
    program_id: Seq<u8>,
    accounts: Seq<AccountInfoView>,
    edition: u64,
    bump: u8,
) -> InvocationView {
    InvocationView {
        instruction: edition_mint_instruction(mint_keys(accounts), edition),
        accounts: seq![
            0usize,
            1usize,
            2usize,
            3usize,
            4usize,
            4usize,
            5usize,
            6usize,
            4usize,
            7usize,
            8usize,
            9usize,
            10usize,
            11usize,
            12usize,
        ],
        signer_seeds: Some(custody_signer_seeds(program_id, bump)),
    }
}

/// What minting copy `edition` returns: `NotEnoughAccountKeys` for fewer
/// than thirteen accounts; `InvalidSeeds` where the sixth account is not the
/// custody address of the program, or where no address can be derived for
/// the marker of the copy; else the invocation. No record is read: that the
/// master edition is in custody is left to the metadata program to find.
pub open spec fn mint_outcome(
    program_id: Seq<u8>,
    accounts: Seq<AccountInfoView>,
    edition: u64,
) -> Result<InvocationView, ProgramError> {
    if accounts.len() < MINT_ACCOUNTS {
        Err(ProgramError::NotEnoughAccountKeys)
    } else {
        match derivation_outcome(
            derived_address(custody_seeds(program_id), program_id),
            accounts[5].key,
        ) {
            Err(e) => Err(e),
            Ok(bump) => if derived_address(
                edition_marker_seeds(METADATA_PROGRAM_ID@, accounts[8].key, edition),
                METADATA_PROGRAM_ID@,
            ) is None {
                Err(ProgramError::InvalidSeeds)
            } else {
                Ok(mint_invocation(program_id, accounts, edition, bump))
            },
        }
    }
}

/// What an instruction with the payload `input` returns: what its operation
/// returns, or `InvalidInstructionData` where the payload carries none.
pub open spec fn instruction_outcome(
    program_id: Seq<u8>,
    accounts: Seq<AccountInfoView>,
    input: Seq<u8>,
) -> Result<InvocationView, ProgramError> {
    match NftInstruction::decoding(input) {
        None => Err(ProgramError::InvalidInstructionData),
        Some(NftInstruction::StakeMasterEdition) => stake_outcome(program_id, accounts),
        Some(NftInstruction::UnstakeMasterEdition) => unstake_outcome(program_id, accounts),
        Some(NftInstruction::MintNewEdition(edition)) => mint_outcome(
            program_id,
            accounts,
            edition,
        ),
    }
}

/// Looks up what the checks of a custody operation go by.
fn gather_facts(program_id: &Pubkey, accounts: &[AccountInfo], metadata: Metadata) -> (facts:
    CustodyFacts)
    requires
        accounts@.len() >= CUSTODY_ACCOUNTS,
    ensures
        facts@ == custody_facts(program_id@, accounts_view(accounts@), metadata@),
{
    let mint = &accounts[0];
    let user_associated_token_account = &accounts[1];
    let pda_relayer_account = &accounts[2];
    let update_authority = &accounts[3];
    let master_edition_info = &accounts[5];
    CustodyFacts {
        authority: update_authority.key,
        authority_signed: update_authority.is_signer,
        mint: mint.key,
        metadata,
        master_edition_address: master_edition_info.key,
        master_edition_derived: find_master_edition_address(program_id, &mint.key),
        master_edition: MasterEdition::from_account_info(master_edition_info),
        token_account_address: user_associated_token_account.key,
        token_account_canonical: get_associated_token_address(&update_authority.key, &mint.key),
        token_account: TokenAccount::unpack_from_slice(
            user_associated_token_account.data.as_slice(),
        ),
        custody_address: pda_relayer_account.key,
        custody_derived: find_custody_address(program_id),
    }
}

/// Program state handler.
pub struct Processor {}

impl Processor {
    /// Label from which the custody address is derived.
    pub const RELAYER_SEED: &'static str = RELAYER_SEED;

    /// Label reserved for the addresses of token data.
    pub const TOKEN_DATA_SEED: &'static str = "token_data";

    /// Places a master edition in custody.
    pub fn process_stake_master_edition(program_id: &Pubkey, accounts: &[AccountInfo]) -> (r:
        Result<Invocation, ProgramError>)
        ensures
            invocation_result_view(r) == stake_outcome(program_id@, accounts_view(accounts@)),
    {
        if accounts.len() < CUSTODY_ACCOUNTS {
            return Err(ProgramError::NotEnoughAccountKeys);
        }
        let metadata = Metadata::from_account_info(&accounts[4])?;
        let facts = gather_facts(program_id, accounts, metadata);
        validate_for_stake(&facts)?;
        match set_account_owner(&accounts[1].key, &accounts[2].key, &accounts[3].key) {
            Ok(instruction) => Ok(
                Invocation { instruction, accounts: vec![1, 2, 3, 6], signer_seeds: None },
            ),
            Err(code) => Err(ProgramError::Foreign(code)),
        }
    }

    /// Takes a master edition out of custody.
    pub fn process_unstake_master_edition(program_id: &Pubkey, accounts: &[AccountInfo]) -> (r:
        Result<Invocation, ProgramError>)
        ensures
            invocation_result_view(r) == unstake_outcome(program_id@, accounts_view(accounts@)),
    {
        if accounts.len() < CUSTODY_ACCOUNTS {
            return Err(ProgramError::NotEnoughAccountKeys);
        }
        let metadata = Metadata::from_account_info(&accounts[4])?;
        let facts = gather_facts(program_id, accounts, metadata);
        let bump_seed = validate_for_unstake(&facts)?;
        match set_account_owner(&accounts[1].key, &accounts[3].key, &accounts[2].key) {
            Ok(instruction) => Ok(
                Invocation {
                    instruction,
                    accounts: vec![1, 3, 2, 6],
                    signer_seeds: Some(signer_seeds(program_id, bump_seed)),
                },
            ),
            Err(code) => Err(ProgramError::Foreign(code)),
        }
    }

    /// Requests copy `edition` of a master edition in custody.
    pub fn process_mint_new_edition(
        program_id: &Pubkey,
        accounts: &[AccountInfo],
        edition: u64,
    ) -> (r: Result<Invocation, ProgramError>)
        ensures
            invocation_result_view(r) == mint_outcome(
                program_id@,
                accounts_view(accounts@),
                edition,
            ),
    {
        if accounts.len() < MINT_ACCOUNTS {
            return Err(ProgramError::NotEnoughAccountKeys);
        }
        let edition_update_authority = accounts[4].key;
        let pda_relayer_account = &accounts[5];
        let master_mint = accounts[8].key;

        let seeds: [&[u8]; 2] = [RELAYER_SEED.as_bytes(), program_id.as_ref()];
        let path = seeds.as_slice();
        assert(seeds_view(path) =~= custody_seeds(program_id@));
        let bump_seed = assert_derivation(program_id, pda_relayer_account, path)?;

        let metadata_program = metadata_program_id();
        if find_edition_marker_address(&metadata_program, &master_mint, edition).is_none() {
            return Err(ProgramError::InvalidSeeds);
        }
        let keys: [Pubkey; 12] = [
            metadata_program,
            accounts[0].key,
            accounts[1].key,
            accounts[2].key,
            accounts[3].key,
            edition_update_authority,
            edition_update_authority,
            pda_relayer_account.key,
            accounts[6].key,
            edition_update_authority,
            accounts[7].key,
            master_mint,
        ];
        assert(keys_view(keys@) =~= mint_keys(accounts_view(accounts@)));
        let instruction = mint_edition_instruction(&keys, edition);
        Ok(
            Invocation {
                instruction,
                accounts: vec![0, 1, 2, 3, 4, 4, 5, 6, 4, 7, 8, 9, 10, 11, 12],
                signer_seeds: Some(signer_seeds(program_id, bump_seed)),
            },
        )
    }

    /// Processes an instruction: reads the operation from `input` and carries
    /// it out on `accounts`.
    pub fn process_instruction(program_id: &Pubkey, accounts: &[AccountInfo], input: &[u8]) -> (r:
        Result<Invocation, ProgramError>)
        ensures
            invocation_result_view(r) == instruction_outcome(
                program_id@,
                accounts_view(accounts@),
                input@,
            ),
    {
        let instruction = NftInstruction::unpack(input)?;
        match instruction {
            NftInstruction::StakeMasterEdition => Self::process_stake_master_edition(
                program_id,
                accounts,
            ),
            NftInstruction::UnstakeMasterEdition => Self::process_unstake_master_edition(
                program_id,
                accounts,
            ),
            NftInstruction::MintNewEdition(edition) => Self::process_mint_new_edition(
                program_id,
                accounts,
                edition,
            ),
        }
    }
}

/// A stake names its invocation exactly when there are seven accounts, the
/// metadata is read and every check passes. The invocation hands the
/// authority over the token account to the custody address of the program,
/// and the signature of the transaction carries it.
pub proof fn lemma_stake_invokes_iff_checks_pass(
    program_id: Seq<u8>,
    accounts: Seq<AccountInfoView>,
)
    ensures
        stake_outcome(program_id, accounts) is Ok <==> accounts.len() >= CUSTODY_ACCOUNTS && (
        metadata_outcome(accounts[4].data) matches Ok(metadata) && stake_verdict(
            custody_facts(program_id, accounts, metadata),
        ) is Ok),
        stake_outcome(program_id, accounts) matches Ok(invocation) ==> {
            &&& invocation.instruction.data == seq![6u8, 2u8, 1u8] + accounts[2].key
            &&& invocation.signer_seeds is None
            &&& derived_address(custody_seeds(program_id), program_id) matches Some((address, _))
                && address == accounts[2].key
        },
{
}

/// An unstake names its invocation exactly when there are seven accounts,
/// the metadata is read and every check passes. The invocation hands the
/// authority over the token account back to the authority of the operation,
/// and the program signs it as the custody address that it has verified.
pub proof fn lemma_unstake_invokes_iff_checks_pass(
    program_id: Seq<u8>,
    accounts: Seq<AccountInfoView>,
)
    ensures
        unstake_outcome(program_id, accounts) is Ok <==> accounts.len() >= CUSTODY_ACCOUNTS && (
        metadata_outcome(accounts[4].data) matches Ok(metadata) && unstake_verdict(
            custody_facts(program_id, accounts, metadata),
        ) is Ok),
        unstake_outcome(program_id, accounts) matches Ok(invocation) ==> {
            &&& invocation.instruction.data == seq![6u8, 2u8, 1u8] + accounts[3].key
            &&& derived_address(custody_seeds(program_id), program_id) matches Some(
                (address, bump),
            ) && address == accounts[2].key && invocation.signer_seeds == Some(
                custody_signer_seeds(program_id, bump),
            )
        },
{
}

/// A stake of a token account that holds nothing fails.
pub proof fn lemma_stake_of_empty_account_fails(
    program_id: Seq<u8>,
    accounts: Seq<AccountInfoView>,
)
    requires
        accounts.len() >= CUSTODY_ACCOUNTS,
        token_account_outcome(accounts[1].data) matches Ok(account) && account.amount == 0,
    ensures
        stake_outcome(program_id, accounts) is Err,
{
}

/// An unstake fails while the master edition has copies left to issue.
pub proof fn lemma_unstake_during_sales_fails(program_id: Seq<u8>, accounts: Seq<AccountInfoView>)
    requires
        accounts.len() >= CUSTODY_ACCOUNTS,
        master_edition_outcome(accounts[5].data) matches Ok(master) && (master.max_supply
            matches Some(max_supply) && master.supply < max_supply),
    ensures
        unstake_outcome(program_id, accounts) is Err,
{
}

/// A copy is requested only as the custody address of the program: the
/// sixth account is that address, the request names it as the owner of the
/// master's token account, who has to sign, and the program signs with its
/// seeds. The request goes to the metadata program and names the master
/// edition to be copied.
pub proof fn lemma_mint_signs_as_custody(
    program_id: Seq<u8>,
    accounts: Seq<AccountInfoView>,
    edition: u64,
)
    requires
        mint_outcome(program_id, accounts, edition) is Ok,
    ensures
        accounts.len() >= MINT_ACCOUNTS,
        mint_outcome(program_id, accounts, edition)->Ok_0.instruction.program_id
            == METADATA_PROGRAM_ID@,
        mint_outcome(program_id, accounts, edition)->Ok_0.instruction.accounts.len() == 14,
        mint_outcome(program_id, accounts, edition)->Ok_0.instruction.accounts[7] == readonly(
            accounts[5].key,
            true,
        ),
        mint_outcome(program_id, accounts, edition)->Ok_0.instruction.accounts[2].pubkey
            == accounts[2].key,
        derived_address(custody_seeds(program_id), program_id) matches Some((address, bump))
            && address == accounts[5].key && mint_outcome(
            program_id,
            accounts,
            edition,
        )->Ok_0.signer_seeds == Some(custody_signer_seeds(program_id, bump)),
{
}

/// Two requests for copies with different numbers are different requests,
/// whatever the accounts of each: the request for one copy never stands for
/// another.
pub proof fn lemma_copies_are_requested_apart(
    program_id: Seq<u8>,
    first_accounts: Seq<AccountInfoView>,
    first_edition: u64,
    second_accounts: Seq<AccountInfoView>,
    second_edition: u64,
)
    requires
        mint_outcome(program_id, first_accounts, first_edition) is Ok,
        mint_outcome(program_id, second_accounts, second_edition) is Ok,
        first_edition != second_edition,
    ensures
        mint_outcome(program_id, first_accounts, first_edition)->Ok_0.instruction != mint_outcome(
            program_id,
            second_accounts,
            second_edition,
        )->Ok_0.instruction,
{
    lemma_copy_numbers_give_different_requests(
        mint_outcome(program_id, first_accounts, first_edition)->Ok_0.instruction,
        first_edition,
        mint_outcome(program_id, second_accounts, second_edition)->Ok_0.instruction,
        second_edition,
    );
}

} // verus!
