//! The invocations of other programs that the operations ask for. An
//! operation only names its invocation: the caller, who holds the accounts,
//! makes it.

use crate::instruction::{readonly, writable, AccountMeta, Instruction, InstructionView};
use crate::programs::{RENT_SYSVAR_ID, SYSTEM_PROGRAM_ID, TOKEN_PROGRAM_ID};
use crate::pubkey::{derived_address, Pubkey};
use crate::seeds::{byte_strings_view, edition_marker_seeds};
use crate::state::keys_view;
use vstd::bytes::spec_u64_to_le_bytes;
use vstd::prelude::*;

verus! {

/// A request to invoke another program.
#[derive(Debug, PartialEq, Eq)]
pub struct Invocation {
    /// The instruction for the invoked program.
    pub instruction: Instruction,
    /// The accounts to hand to the invoked program, each by its position
    /// among the accounts of the operation.
    pub accounts: Vec<usize>,
    /// The seeds with which the program signs as its custody address; none
    /// where the signatures of the transaction suffice.
    pub signer_seeds: Option<Vec<Vec<u8>>>,
}

/// An [`Invocation`] as a value of the model.
pub struct InvocationView {
    pub instruction: InstructionView,
    pub accounts: Seq<usize>,
    pub signer_seeds: Option<Seq<Seq<u8>>>,
}

impl View for Invocation {
    type V = InvocationView;

    open spec fn view(&self) -> InvocationView {
        InvocationView {
            instruction: self.instruction@,
            accounts: self.accounts@,
            signer_seeds: match self.signer_seeds {
                Some(seeds) => Some(byte_strings_view(seeds@)),
                None => None,
            },
        }
    }
}

/// The outcome of an operation as a value of the model.
pub open spec fn invocation_result_view<E>(r: Result<Invocation, E>) -> Result<InvocationView, E> {
    match r {
        Ok(invocation) => Ok(invocation@),
        Err(e) => Err(e),
    }
}

/// The instruction that asks the token program to make `new_owner` the
/// authority over the token account `account`, in place of `owner`, who
/// signs: the selector of the operation, the kind of authority, and the new
/// authority after a byte that says there is one.
pub open spec fn set_owner_instruction(
    account: Seq<u8>,
    new_owner: Seq<u8>,
    owner: Seq<u8>,
) -> InstructionView {
    InstructionView {
        program_id: TOKEN_PROGRAM_ID@,
        accounts: seq![writable(account, false), readonly(owner, true)],
        data: seq![6u8, 2u8, 1u8] + new_owner,
    }
}

/// `spl_token::instruction::set_authority`, for the token program itself,
/// the authority of kind `AccountOwner`, a new authority, and an owner who
/// signs alone. With the token program's own identity the call does not
/// fail; a failure would be handed on as the code that `solana_program`
/// gives it.
#[verifier::external_body]
pub(crate) fn set_account_owner(
    account: &Pubkey,
    new_owner: &Pubkey,
    owner: &Pubkey,
) -> (r: Result<Instruction, u64>)
    ensures
        r is Ok,
        r matches Ok(ix) ==> ix@ == set_owner_instruction(account@, new_owner@, owner@),
{
    let keys = [account, new_owner, owner].map(|k| solana_program::pubkey::Pubkey::new_from_array(k.bytes));
    let kind = spl_token::instruction::AuthorityType::AccountOwner;
    match spl_token::instruction::set_authority(&spl_token::id(), &keys[0], Some(&keys[1]), kind, &keys[2], &[]) {
        Ok(ix) => Ok(Instruction {
            program_id: Pubkey { bytes: ix.program_id.to_bytes() },
            accounts: ix.accounts.iter().map(|m| AccountMeta {
                pubkey: Pubkey { bytes: m.pubkey.to_bytes() },
                is_signer: m.is_signer,
                is_writable: m.is_writable,
            }).collect(),
            data: ix.data,
        }),
        Err(e) => Err(u64::from(e)),
    }
}

/// Address of the marker in which the metadata program `program_id` records
/// the issue of copy `edition` of the master of `mint`, where one can be
/// derived.
pub open spec fn edition_marker_address(program_id: Seq<u8>, mint: Seq<u8>, edition: u64) -> Seq<
    u8,
> {
    match derived_address(edition_marker_seeds(program_id, mint, edition), program_id) {
        Some((address, _)) => address,
        None => Seq::empty(),
    }
}

/// Whether the library of the metadata program `keys[0]` can build the
/// instruction that mints copy `edition` of the master whose mint is
/// `keys[11]`: it derives the address of the edition marker, and stops where
/// there is none.
pub open spec fn edition_marker_exists(keys: Seq<Seq<u8>>, edition: u64) -> bool {
    derived_address(edition_marker_seeds(keys[0], keys[11], edition), keys[0]) is Some
}

/// The instruction that asks the metadata program `keys[0]` to mint copy
/// `edition`. The other identities are, in order: the new metadata, the new
/// edition, the master edition, the mint of the copy, its mint authority,
/// the payer, the owner of the master's token account, that token account,
/// the update authority of the new metadata, the metadata of the master and
/// the mint of the master. The accounts that are written come first, the
/// edition marker among them; the mint authority, the payer and the owner of
/// the token account sign. The payload is the selector 11 and the copy
/// number, least significant byte first.
pub open spec fn edition_mint_instruction(keys: Seq<Seq<u8>>, edition: u64) -> InstructionView {
    InstructionView {
        program_id: keys[0],
        accounts: seq![
            writable(keys[1], false),
            writable(keys[2], false),
            writable(keys[3], false),
            writable(keys[4], false),
            writable(edition_marker_address(keys[0], keys[11], edition), false),
            readonly(keys[5], true),
            writable(keys[6], true),
            readonly(keys[7], true),
            readonly(keys[8], false),
            readonly(keys[9], false),
            readonly(keys[10], false),
            readonly(TOKEN_PROGRAM_ID@, false),
            readonly(SYSTEM_PROGRAM_ID@, false),
            readonly(RENT_SYSVAR_ID@, false),
        ],
        data: seq![11u8] + spec_u64_to_le_bytes(edition),
    }
}

/// `metaplex_token_metadata::instruction::mint_new_edition_from_master_edition_via_token`,
/// with `keys` as its twelve identities in order. It names fourteen
/// accounts: the first four identities and the edition marker, whose address
/// it derives, as written; then the identities that follow, and the token
/// program, the system program and the rent sysvar, as read. The call
/// panics where no address can be derived for the edition marker.
#[verifier::external_body]
pub(crate) fn mint_edition_instruction(
    keys: &[Pubkey; 12],
    edition: u64,
) -> (instruction: Instruction)
    requires
        edition_marker_exists(keys_view(keys@), edition),
    ensures
        instruction@ == edition_mint_instruction(keys_view(keys@), edition),
{
    let k = keys.map(|key| solana_program::pubkey::Pubkey::new_from_array(key.bytes));
    let ix = metaplex_token_metadata::instruction::mint_new_edition_from_master_edition_via_token(
        k[0], k[1], k[2], k[3], k[4], k[5], k[6], k[7], k[8], k[9], k[10], k[11], edition,
    );
    Instruction {
        program_id: Pubkey { bytes: ix.program_id.to_bytes() },
        accounts: ix.accounts.iter().map(|m| AccountMeta {
            pubkey: Pubkey { bytes: m.pubkey.to_bytes() },
            is_signer: m.is_signer,
            is_writable: m.is_writable,
        }).collect(),
        data: ix.data,
    }
}

/// Requests for different copy numbers differ, whatever their accounts: a
/// copy number is never carried by the request for another.
pub proof fn lemma_copy_numbers_give_different_requests(
    first: InstructionView,
    first_edition: u64,
    second: InstructionView,
    second_edition: u64,
)
    requires
        first.data == seq![11u8] + spec_u64_to_le_bytes(first_edition),
        second.data == seq![11u8] + spec_u64_to_le_bytes(second_edition),
        first_edition != second_edition,
    ensures
        first != second,
{
    vstd::bytes::lemma_auto_spec_u64_to_from_le_bytes();
    if first.data == second.data {
        let a = spec_u64_to_le_bytes(first_edition);
        let b = spec_u64_to_le_bytes(second_edition);
        assert(a =~= first.data.subrange(1, 9));
        assert(b =~= second.data.subrange(1, 9));
    }
}

} // verus!
