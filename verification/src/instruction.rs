//! The operations of the custody program and the instructions that carry
//! them.

use crate::error::ProgramError;
use crate::programs::{token_program_id, TOKEN_PROGRAM_ID};
use crate::pubkey::Pubkey;
use vstd::bytes::{
    lemma_auto_spec_u64_to_from_le_bytes, spec_u64_from_le_bytes, spec_u64_to_le_bytes,
    u64_from_le_bytes, u64_to_le_bytes,
};
use vstd::prelude::*;
use vstd::slice::slice_subrange;

verus! {

/// An operation of the custody program.
#[derive(Clone, Copy, Debug, PartialEq, Eq, Structural)]
pub enum NftInstruction {
    /// Places a master edition in custody, so that copies of it can be
    /// bought.
    ///
    /// Accounts, by position:
    ///
    ///   0. `[]` the mint of the master edition
    ///   1. `[writable]` the holder's token account of the master edition
    ///   2. `[]` the custody address
    ///   3. `[signer]` the authority
    ///   4. `[]` the metadata account of the mint
    ///   5. `[]` the master edition account of the mint
    ///   6. `[]` the token program
    StakeMasterEdition,
    /// Takes a master edition out of custody. The accounts are those of
    /// `StakeMasterEdition`.
    UnstakeMasterEdition,
    /// Mints the copy with the given number from a master edition in
    /// custody.
    ///
    /// Accounts, by position:
    ///
    ///   0. `[writable]` the metadata account of the copy
    ///   1. `[writable]` the edition account of the copy
    ///   2. `[writable]` the master edition account
    ///   3. `[writable]` the mint of the copy
    ///   4. `[signer]` the mint authority of the copy, who also pays and
    ///      becomes the update authority of its metadata
    ///   5. `[]` the custody address, authority over the master's token account
    ///   6. `[]` the token account that holds the master edition
    ///   7. `[]` the metadata account of the master
    ///   8. `[]` the mint of the master
    ///   9. `[]` the token program
    ///   10. `[]` the system program
    ///   11. `[]` the metadata program
    ///   12. `[]` the rent sysvar
    MintNewEdition(u64),
}

impl NftInstruction {
    /// The bytes that carry an operation: its selector, and after the
    /// selector of `MintNewEdition` the copy number, least significant byte
    /// first.
    pub open spec fn encoding(self) -> Seq<u8> {
        match self {
            NftInstruction::StakeMasterEdition => seq![0u8],
            NftInstruction::UnstakeMasterEdition => seq![1u8],
            NftInstruction::MintNewEdition(edition) => seq![2u8] + spec_u64_to_le_bytes(edition),
        }
    }

    /// The operation that `data` carries, if it carries one and nothing else.
    pub open spec fn decoding(data: Seq<u8>) -> Option<NftInstruction> {
        if data.len() == 1 && data[0] == 0 {
            Some(NftInstruction::StakeMasterEdition)
        } else if data.len() == 1 && data[0] == 1 {
            Some(NftInstruction::UnstakeMasterEdition)
        } else if data.len() == 9 && data[0] == 2 {
            Some(NftInstruction::MintNewEdition(spec_u64_from_le_bytes(data.subrange(1, 9))))
        } else {
            None
        }
    }

    /// Writes the operation as the payload of an instruction.
    pub fn pack(&self) -> (data: Vec<u8>)
        ensures
            data@ == self.encoding(),
    {
        let mut data: Vec<u8> = Vec::new();
        match self {
            NftInstruction::StakeMasterEdition => {
                data.push(0);
            },
            NftInstruction::UnstakeMasterEdition => {
                data.push(1);
            },
            NftInstruction::MintNewEdition(edition) => {
                data.push(2);
                let number = u64_to_le_bytes(*edition);
                data.extend_from_slice(number.as_slice());
            },
        }
        data
    }

    /// Reads an operation from the payload of an instruction. A payload that
    /// is empty, names no operation, is cut short or runs on after the
    /// operation is refused.
    pub fn unpack(input: &[u8]) -> (r: Result<NftInstruction, ProgramError>)
        ensures
            r == match NftInstruction::decoding(input@) {
                Some(instruction) => Ok::<NftInstruction, ProgramError>(instruction),
                None => Err(ProgramError::InvalidInstructionData),
            },
    {
        if input.len() == 1 && input[0] == 0 {
            Ok(NftInstruction::StakeMasterEdition)
        } else if input.len() == 1 && input[0] == 1 {
            Ok(NftInstruction::UnstakeMasterEdition)
        } else if input.len() == 9 && input[0] == 2 {
            Ok(NftInstruction::MintNewEdition(u64_from_le_bytes(slice_subrange(input, 1, 9))))
        } else {
            Err(ProgramError::InvalidInstructionData)
        }
    }
}

/// Reading back what was written gives the operation that was written.
pub proof fn lemma_unpack_pack(instruction: NftInstruction)
    ensures
        NftInstruction::decoding(instruction.encoding()) == Some(instruction),
{
    lemma_auto_spec_u64_to_from_le_bytes();
    if let NftInstruction::MintNewEdition(edition) = instruction {
        let data = instruction.encoding();
        assert(data.subrange(1, 9) =~= spec_u64_to_le_bytes(edition));
    }
}

/// A payload that reads as an operation is the payload written for it, so no
/// two payloads carry the same operation.
pub proof fn lemma_pack_unpack(data: Seq<u8>, instruction: NftInstruction)
    requires
        NftInstruction::decoding(data) == Some(instruction),
    ensures
        instruction.encoding() == data,
{
    lemma_auto_spec_u64_to_from_le_bytes();
    if data.len() == 9 {
        let number = data.subrange(1, 9);
        assert(spec_u64_to_le_bytes(spec_u64_from_le_bytes(number)) == number);
        assert(seq![2u8] + number =~= data);
    } else {
        assert(instruction.encoding() =~= data);
    }
}

/// One account that an instruction names.
#[derive(Clone, Copy, Debug, PartialEq, Eq)]
pub struct AccountMeta {
    /// Address of the account.
    pub pubkey: Pubkey,
    /// Whether the instruction needs a signature for this address.
    pub is_signer: bool,
    /// Whether the instruction may change the account.
    pub is_writable: bool,
}

/// An [`AccountMeta`] as a value of the model.
pub struct AccountMetaView {
    pub pubkey: Seq<u8>,
    pub is_signer: bool,
    pub is_writable: bool,
}

impl View for AccountMeta {
    type V = AccountMetaView;

    open spec fn view(&self) -> AccountMetaView {
        AccountMetaView {
            pubkey: self.pubkey@,
            is_signer: self.is_signer,
            is_writable: self.is_writable,
        }
    }
}

/// An account that an instruction may change.
pub open spec fn writable(pubkey: Seq<u8>, is_signer: bool) -> AccountMetaView {
    AccountMetaView { pubkey, is_signer, is_writable: true }
}

/// An account that an instruction only reads.
pub open spec fn readonly(pubkey: Seq<u8>, is_signer: bool) -> AccountMetaView {
    AccountMetaView { pubkey, is_signer, is_writable: false }
}

impl AccountMeta {
    /// Names an account that the instruction may change.
    pub fn new(pubkey: Pubkey, is_signer: bool) -> (meta: AccountMeta)
        ensures
            meta@ == writable(pubkey@, is_signer),
    {
        AccountMeta { pubkey, is_signer, is_writable: true }
    }

    /// Names an account that the instruction only reads.
    pub fn new_readonly(pubkey: Pubkey, is_signer: bool) -> (meta: AccountMeta)
        ensures
            meta@ == readonly(pubkey@, is_signer),
    {
        AccountMeta { pubkey, is_signer, is_writable: false }
    }
}

/// A request to a program: the program, the accounts it is to work on, and
/// the payload that says what to do.
#[derive(Clone, Debug, PartialEq, Eq)]
pub struct Instruction {
    /// The program that executes the instruction.
    pub program_id: Pubkey,
    /// The accounts, in the order in which the program expects them.
    pub accounts: Vec<AccountMeta>,
    /// The payload.
    pub data: Vec<u8>,
}

/// An [`Instruction`] as a value of the model.
pub struct InstructionView {
    pub program_id: Seq<u8>,
    pub accounts: Seq<AccountMetaView>,
    pub data: Seq<u8>,
}

/// The accounts in `metas`, each as a value of the model.
pub open spec fn metas_view(metas: Seq<AccountMeta>) -> Seq<AccountMetaView> {
    Seq::new(metas.len(), |i: int| metas[i]@)
}

impl View for Instruction {
    type V = InstructionView;

    open spec fn view(&self) -> InstructionView {
        InstructionView {
            program_id: self.program_id@,
            accounts: metas_view(self.accounts@),
            data: self.data@,
        }
    }
}

/// The accounts of a custody instruction, by position. Only the holder's
/// token account is changed, and only the authority signs.
pub open spec fn custody_accounts(
    mint: Seq<u8>,
    user_associated_token_account: Seq<u8>,
    pda_relayer_account: Seq<u8>,
    update_authority: Seq<u8>,
    metadata: Seq<u8>,
    master_edition: Seq<u8>,
) -> Seq<AccountMetaView> {
    seq![
        readonly(mint, false),
        writable(user_associated_token_account, false),
        readonly(pda_relayer_account, false),
        readonly(update_authority, true),
        readonly(metadata, false),
        readonly(master_edition, false),
        readonly(TOKEN_PROGRAM_ID@, false),
    ]
}

/// Builds the instruction of a custody operation from its payload.
fn custody_instruction(
    program_id: &Pubkey,
    mint_info: &Pubkey,
    user_associated_token_account: &Pubkey,
    pda_relayer_account: &Pubkey,
    update_authority: &Pubkey,
    metadata_info: &Pubkey,
    master_edition_info: &Pubkey,
    data: Vec<u8>,
) -> (instruction: Instruction)
    ensures
        instruction@ == (InstructionView {
            program_id: program_id@,
            accounts: custody_accounts(
                mint_info@,
                user_associated_token_account@,
                pda_relayer_account@,
                update_authority@,
                metadata_info@,
                master_edition_info@,
            ),
            data: data@,
        }),
{
    let mut accounts: Vec<AccountMeta> = Vec::new();
    accounts.push(AccountMeta::new_readonly(*mint_info, false));
    accounts.push(AccountMeta::new(*user_associated_token_account, false));
    accounts.push(AccountMeta::new_readonly(*pda_relayer_account, false));
    accounts.push(AccountMeta::new_readonly(*update_authority, true));
    accounts.push(AccountMeta::new_readonly(*metadata_info, false));
    accounts.push(AccountMeta::new_readonly(*master_edition_info, false));
    accounts.push(AccountMeta::new_readonly(token_program_id(), false));
    let instruction = Instruction { program_id: *program_id, accounts, data };
    assert(instruction@.accounts =~= custody_accounts(
        mint_info@,
        user_associated_token_account@,
        pda_relayer_account@,
        update_authority@,
        metadata_info@,
        master_edition_info@,
    ));
    instruction
}

/// Creates a `StakeMasterEdition` instruction for the custody program
/// `program_id`.
pub fn stake_master_edition(
    program_id: &Pubkey,
    mint_info: &Pubkey,
    user_associated_token_account: &Pubkey,
    pda_relayer_account: &Pubkey,
    update_authority: &Pubkey,
    metadata_info: &Pubkey,
    master_edition_info: &Pubkey,
) -> (r: Result<Instruction, ProgramError>)
    ensures
        r matches Ok(instruction) && instruction@ == (InstructionView {
            program_id: program_id@,
            accounts: custody_accounts(
                mint_info@,
                user_associated_token_account@,
                pda_relayer_account@,
                update_authority@,
                metadata_info@,
                master_edition_info@,
            ),
            data: NftInstruction::StakeMasterEdition.encoding(),
        }),
{
    let data = NftInstruction::StakeMasterEdition.pack();
    Ok(
        custody_instruction(
            program_id,
            mint_info,
            user_associated_token_account,
            pda_relayer_account,
            update_authority,
            metadata_info,
            master_edition_info,
            data,
        ),
    )
}

/// Creates an `UnstakeMasterEdition` instruction for the custody program
/// `program_id`.
pub fn unstake_master_edition(
    program_id: &Pubkey,
    mint_info: &Pubkey,
    user_associated_token_account: &Pubkey,
    pda_relayer_account: &Pubkey,
    update_authority: &Pubkey,
    metadata_info: &Pubkey,
    master_edition_info: &Pubkey,
) -> (r: Result<Instruction, ProgramError>)
    ensures
        r matches Ok(instruction) && instruction@ == (InstructionView {
            program_id: program_id@,
            accounts: custody_accounts(
                mint_info@,
                user_associated_token_account@,
                pda_relayer_account@,
                update_authority@,
                metadata_info@,
                master_edition_info@,
            ),
            data: NftInstruction::UnstakeMasterEdition.encoding(),
        }),
{
    let data = NftInstruction::UnstakeMasterEdition.pack();
    Ok(
        custody_instruction(
            program_id,
            mint_info,
            user_associated_token_account,
            pda_relayer_account,
            update_authority,
            metadata_info,
            master_edition_info,
            data,
        ),
    )
}

/// The two custody instructions for the same accounts differ, and each
/// carries the selector of its own operation.
pub proof fn lemma_custody_payloads_differ()
    ensures
        NftInstruction::StakeMasterEdition.encoding() != NftInstruction::UnstakeMasterEdition.encoding(),
        NftInstruction::decoding(NftInstruction::StakeMasterEdition.encoding()) == Some(
            NftInstruction::StakeMasterEdition,
        ),
        NftInstruction::decoding(NftInstruction::UnstakeMasterEdition.encoding()) == Some(
            NftInstruction::UnstakeMasterEdition,
        ),
{
    assert(NftInstruction::StakeMasterEdition.encoding()[0] == 0);
    assert(NftInstruction::UnstakeMasterEdition.encoding()[0] == 1);
}

} // verus!
