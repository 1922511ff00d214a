use borsh::BorshSerialize;
use solana_nft::account_info::AccountInfo;
use solana_nft::error::{NftError, ProgramError};
use solana_nft::instruction::{AccountMeta, Instruction, NftInstruction};
use solana_nft::invoke::Invocation;
use solana_nft::processor::Processor;
use solana_nft::pubkey::Pubkey;
use solana_program::program_option::COption;
use solana_program::program_pack::Pack;
use std::collections::BTreeSet;

type Outside = solana_program::pubkey::Pubkey;

fn key(byte: u8) -> Pubkey {
    Pubkey::new_from_array([byte; 32])
}

fn outside(k: &Pubkey) -> Outside {
    Outside::new_from_array(k.to_bytes())
}

fn inside(k: &Outside) -> Pubkey {
    Pubkey::new_from_array(k.to_bytes())
}

fn program() -> Pubkey {
    key(42)
}

fn authority() -> Pubkey {
    key(1)
}

fn mint() -> Pubkey {
    key(2)
}

fn custody() -> (Pubkey, u8) {
    let (address, bump) =
        Outside::find_program_address(&[b"relayer", program().as_ref()], &outside(&program()));
    (inside(&address), bump)
}

fn master_edition_address() -> Pubkey {
    let (address, _) = Outside::find_program_address(
        &[b"metadata", metaplex_token_metadata::id().as_ref(), mint().as_ref(), b"edition"],
        &outside(&program()),
    );
    inside(&address)
}

fn token_account_address() -> Pubkey {
    inside(&spl_associated_token_account::get_associated_token_address(
        &outside(&authority()),
        &outside(&mint()),
    ))
}

fn metadata_bytes(creators: Option<Vec<Pubkey>>) -> Vec<u8> {
    let record = metaplex_token_metadata::state::Metadata {
        key: metaplex_token_metadata::state::Key::MetadataV1,
        update_authority: outside(&authority()),
        mint: outside(&mint()),
        data: metaplex_token_metadata::state::Data {
            name: String::from("Sunrise"),
            symbol: String::from("SUN"),
            uri: String::from("https://example.org/sunrise.json"),
            seller_fee_basis_points: 250,
            creators: creators.map(|list| {
                list.iter()
                    .map(|k| metaplex_token_metadata::state::Creator {
                        address: outside(k),
                        verified: false,
                        share: 50,
                    })
                    .collect()
            }),
        },
        primary_sale_happened: false,
        is_mutable: true,
        edition_nonce: None,
    };
    let mut data = record.try_to_vec().unwrap();
    data.resize(metaplex_token_metadata::state::MAX_METADATA_LEN, 0);
    data
}

fn master_edition_bytes(supply: u64, max_supply: Option<u64>) -> Vec<u8> {
    let record = metaplex_token_metadata::state::MasterEditionV2 {
        key: metaplex_token_metadata::state::Key::MasterEditionV2,
        supply,
        max_supply,
    };
    let mut data = record.try_to_vec().unwrap();
    data.resize(metaplex_token_metadata::state::MAX_MASTER_EDITION_LEN, 0);
    data
}

fn token_account_bytes(owner: &Pubkey, amount: u64) -> Vec<u8> {
    let record = spl_token::state::Account {
        mint: outside(&mint()),
        owner: outside(owner),
        amount,
        delegate: COption::None,
        state: spl_token::state::AccountState::Initialized,
        is_native: COption::None,
        delegated_amount: 0,
        close_authority: COption::None,
    };
    let mut data = vec![0u8; 165];
    record.pack_into_slice(&mut data);
    data
}

fn info(key: Pubkey, is_signer: bool, data: Vec<u8>) -> AccountInfo {
    AccountInfo { key, is_signer, data }
}

/// The accounts of a custody operation on a master edition that has issued
/// `supply` of `max_supply` copies, whose token account holds `amount`.
fn custody_accounts(supply: u64, max_supply: Option<u64>, amount: u64) -> Vec<AccountInfo> {
    vec![
        info(mint(), false, Vec::new()),
        info(token_account_address(), false, token_account_bytes(&authority(), amount)),
        info(custody().0, false, Vec::new()),
        info(authority(), true, Vec::new()),
        info(key(60), false, metadata_bytes(Some(vec![key(90), custody().0]))),
        info(master_edition_address(), false, master_edition_bytes(supply, max_supply)),
        info(inside(&spl_token::id()), false, Vec::new()),
    ]
}

fn custom(e: NftError) -> ProgramError {
    ProgramError::Custom(e.code())
}

/// The token ledger, as far as a change of authority goes: carries out the
/// instruction of `invocation` on the token account among `accounts`, if the
/// current owner signed the transaction or the program signs as it.
fn token_ledger_executes(accounts: &mut [AccountInfo], invocation: &Invocation) -> bool {
    let ix = &invocation.instruction;
    if outside(&ix.program_id) != spl_token::id() || ix.accounts.len() != 2 {
        return false;
    }
    let new_owner = match spl_token::instruction::TokenInstruction::unpack(&ix.data) {
        Ok(spl_token::instruction::TokenInstruction::SetAuthority {
            authority_type: spl_token::instruction::AuthorityType::AccountOwner,
            new_authority: COption::Some(new_owner),
        }) => new_owner,
        _ => return false,
    };
    let handed: Vec<Pubkey> = invocation.accounts.iter().map(|&i| accounts[i].key).collect();
    if !ix.accounts.iter().all(|meta| handed.contains(&meta.pubkey)) {
        return false;
    }
    let owner = ix.accounts[1].pubkey;
    let signed_by_transaction = accounts.iter().any(|a| a.key == owner && a.is_signer);
    let signed_by_program = match &invocation.signer_seeds {
        Some(seeds) => {
            let slices: Vec<&[u8]> = seeds.iter().map(|s| s.as_slice()).collect();
            Outside::create_program_address(&slices, &outside(&program())) == Ok(outside(&owner))
        }
        None => false,
    };
    if !ix.accounts[1].is_signer || !(signed_by_transaction || signed_by_program) {
        return false;
    }
    let token = accounts.iter_mut().find(|a| a.key == ix.accounts[0].pubkey).unwrap();
    let mut record = spl_token::state::Account::unpack_from_slice(&token.data).unwrap();
    if record.owner != outside(&owner) {
        return false;
    }
    record.owner = new_owner;
    record.pack_into_slice(&mut token.data);
    true
}

fn owner_of(accounts: &[AccountInfo]) -> Pubkey {
    inside(&spl_token::state::Account::unpack_from_slice(&accounts[1].data).unwrap().owner)
}

fn set_balance(accounts: &mut [AccountInfo], amount: u64) {
    let mut record = spl_token::state::Account::unpack_from_slice(&accounts[1].data).unwrap();
    record.amount = amount;
    record.pack_into_slice(&mut accounts[1].data);
}

#[test]
fn stake_succeeds_and_authority_becomes_the_custody_address() {
    let mut accounts = custody_accounts(0, Some(3), 1);
    let invocation = Processor::process_stake_master_edition(&program(), &accounts).unwrap();
    assert_eq!(invocation.accounts, vec![1, 2, 3, 6]);
    assert_eq!(invocation.signer_seeds, None);
    assert_eq!(owner_of(&accounts), authority());
    assert!(token_ledger_executes(&mut accounts, &invocation));
    assert_eq!(owner_of(&accounts), custody().0);
}

#[test]
fn stake_asks_the_token_program_for_a_change_of_owner() {
    let accounts = custody_accounts(0, Some(3), 1);
    let invocation = Processor::process_stake_master_edition(&program(), &accounts).unwrap();
    let mut data = vec![6u8, 2, 1];
    data.extend_from_slice(&custody().0.to_bytes());
    assert_eq!(
        invocation.instruction,
        Instruction {
            program_id: inside(&spl_token::id()),
            accounts: vec![
                AccountMeta { pubkey: token_account_address(), is_signer: false, is_writable: true },
                AccountMeta { pubkey: authority(), is_signer: true, is_writable: false },
            ],
            data,
        }
    );
    let expected = spl_token::instruction::set_authority(
        &spl_token::id(),
        &outside(&token_account_address()),
        Some(&outside(&custody().0)),
        spl_token::instruction::AuthorityType::AccountOwner,
        &outside(&authority()),
        &[],
    )
    .unwrap();
    assert_eq!(outside(&invocation.instruction.program_id), expected.program_id);
    assert_eq!(invocation.instruction.data, expected.data);
}

#[test]
fn second_stake_of_an_emptied_account_fails_with_not_owned() {
    let mut accounts = custody_accounts(0, Some(3), 1);
    let invocation = Processor::process_stake_master_edition(&program(), &accounts).unwrap();
    assert!(token_ledger_executes(&mut accounts, &invocation));
    set_balance(&mut accounts, 0);
    assert_eq!(
        Processor::process_stake_master_edition(&program(), &accounts),
        Err(custom(NftError::NotOwned))
    );
}

#[test]
fn second_stake_is_not_carried_out_by_the_token_ledger() {
    let mut accounts = custody_accounts(0, Some(3), 1);
    let invocation = Processor::process_stake_master_edition(&program(), &accounts).unwrap();
    assert!(token_ledger_executes(&mut accounts, &invocation));
    let again = Processor::process_stake_master_edition(&program(), &accounts).unwrap();
    assert!(!token_ledger_executes(&mut accounts, &again));
    assert_eq!(owner_of(&accounts), custody().0);
}

#[test]
fn unstake_fails_during_sales_and_succeeds_after_the_last_copy() {
    let mut accounts = custody_accounts(0, Some(3), 1);
    let stake = Processor::process_stake_master_edition(&program(), &accounts).unwrap();
    assert!(token_ledger_executes(&mut accounts, &stake));

    accounts[5].data = master_edition_bytes(2, Some(3));
    assert_eq!(
        Processor::process_unstake_master_edition(&program(), &accounts),
        Err(custom(NftError::OngoingSales))
    );
    assert_eq!(owner_of(&accounts), custody().0);

    accounts[5].data = master_edition_bytes(3, Some(3));
    let unstake = Processor::process_unstake_master_edition(&program(), &accounts).unwrap();
    assert_eq!(unstake.accounts, vec![1, 3, 2, 6]);
    assert_eq!(
        unstake.signer_seeds,
        Some(vec![b"relayer".to_vec(), program().to_bytes().to_vec(), vec![custody().1]])
    );
    assert!(token_ledger_executes(&mut accounts, &unstake));
    assert_eq!(owner_of(&accounts), authority());
}

#[test]
fn unstake_asks_the_token_program_to_return_the_account() {
    let accounts = custody_accounts(3, Some(3), 1);
    let invocation = Processor::process_unstake_master_edition(&program(), &accounts).unwrap();
    let mut data = vec![6u8, 2, 1];
    data.extend_from_slice(&authority().to_bytes());
    assert_eq!(
        invocation.instruction,
        Instruction {
            program_id: inside(&spl_token::id()),
            accounts: vec![
                AccountMeta { pubkey: token_account_address(), is_signer: false, is_writable: true },
                AccountMeta { pubkey: custody().0, is_signer: true, is_writable: false },
            ],
            data,
        }
    );
}

#[test]
fn unstake_without_a_bound_succeeds() {
    let accounts = custody_accounts(7, None, 1);
    assert!(Processor::process_unstake_master_edition(&program(), &accounts).is_ok());
}

#[test]
fn unstake_needs_a_balance_of_one() {
    for amount in [0u64, 2] {
        let accounts = custody_accounts(3, Some(3), amount);
        assert_eq!(
            Processor::process_unstake_master_edition(&program(), &accounts),
            Err(custom(NftError::NotOwned))
        );
    }
}

#[test]
fn stake_without_listing_fails_whatever_the_balance() {
    for amount in [0u64, 1, 5] {
        let mut accounts = custody_accounts(0, Some(3), amount);
        accounts[4].data = metadata_bytes(Some(vec![key(90), key(91)]));
        assert_eq!(
            Processor::process_stake_master_edition(&program(), &accounts),
            Err(custom(NftError::SatelliteMustListAmongCreators))
        );
    }
}

#[test]
fn stake_without_creators_succeeds() {
    let mut accounts = custody_accounts(0, Some(3), 1);
    accounts[4].data = metadata_bytes(None);
    assert!(Processor::process_stake_master_edition(&program(), &accounts).is_ok());
}

#[test]
fn custody_operations_need_seven_accounts() {
    let accounts = custody_accounts(0, Some(3), 1);
    for n in 0..7 {
        assert_eq!(
            Processor::process_stake_master_edition(&program(), &accounts[..n]),
            Err(ProgramError::NotEnoughAccountKeys)
        );
        assert_eq!(
            Processor::process_unstake_master_edition(&program(), &accounts[..n]),
            Err(ProgramError::NotEnoughAccountKeys)
        );
    }
}

#[test]
fn stake_reports_each_failure() {
    let good = custody_accounts(0, Some(3), 1);

    let mut accounts = good.clone();
    accounts[3].is_signer = false;
    assert_eq!(
        Processor::process_stake_master_edition(&program(), &accounts),
        Err(ProgramError::MissingRequiredSignature)
    );

    // a signer that the metadata does not record as its authority, with
    // its own canonical token account
    let mut accounts = good.clone();
    accounts[3].key = key(3);
    accounts[1].key = inside(&spl_associated_token_account::get_associated_token_address(
        &outside(&key(3)),
        &outside(&mint()),
    ));
    assert_eq!(
        Processor::process_stake_master_edition(&program(), &accounts),
        Err(ProgramError::MissingRequiredSignature)
    );
    assert_eq!(
        Processor::process_unstake_master_edition(&program(), &accounts),
        Err(ProgramError::MissingRequiredSignature)
    );

    let mut accounts = good.clone();
    accounts[0].key = key(70);
    assert_eq!(
        Processor::process_stake_master_edition(&program(), &accounts),
        Err(custom(NftError::MetadataMismatch))
    );

    let mut accounts = good.clone();
    accounts[5].key = key(71);
    assert_eq!(
        Processor::process_stake_master_edition(&program(), &accounts),
        Err(ProgramError::InvalidSeeds)
    );

    let mut accounts = good.clone();
    accounts[5].data = master_edition_bytes(1, Some(3));
    assert_eq!(
        Processor::process_stake_master_edition(&program(), &accounts),
        Err(custom(NftError::WrongEdition))
    );

    let mut accounts = good.clone();
    accounts[5].data = vec![0u8; metaplex_token_metadata::state::MAX_MASTER_EDITION_LEN];
    assert_eq!(
        Processor::process_stake_master_edition(&program(), &accounts),
        Err(custom(NftError::WrongEdition))
    );

    let mut accounts = good.clone();
    accounts[5].data = Vec::new();
    assert_eq!(
        Processor::process_stake_master_edition(&program(), &accounts),
        Err(ProgramError::Foreign(63))
    );

    let mut accounts = good.clone();
    accounts[1].key = key(72);
    assert_eq!(
        Processor::process_stake_master_edition(&program(), &accounts),
        Err(ProgramError::InvalidSeeds)
    );

    let mut accounts = good.clone();
    accounts[1].data = vec![0u8; 100];
    assert_eq!(
        Processor::process_stake_master_edition(&program(), &accounts),
        Err(ProgramError::InvalidAccountData)
    );

    let mut accounts = good.clone();
    accounts[4].data = metadata_bytes(None);
    accounts[2].key = key(73);
    assert_eq!(
        Processor::process_stake_master_edition(&program(), &accounts),
        Err(ProgramError::InvalidSeeds)
    );

    let mut accounts = good.clone();
    accounts[4].data = Vec::new();
    assert_eq!(
        Processor::process_stake_master_edition(&program(), &accounts),
        Err(ProgramError::Foreign(63))
    );

    let mut accounts = good;
    accounts[4].data[0] = 1;
    let mismatch = u64::from(solana_program::program_error::ProgramError::from(
        metaplex_token_metadata::error::MetadataError::DataTypeMismatch,
    ));
    assert_eq!(
        Processor::process_stake_master_edition(&program(), &accounts),
        Err(ProgramError::Foreign(mismatch))
    );
}

#[test]
fn master_edition_of_another_program_is_not_accepted() {
    let mut accounts = custody_accounts(0, Some(3), 1);
    let (address, _) = Outside::find_program_address(
        &[b"metadata", metaplex_token_metadata::id().as_ref(), mint().as_ref(), b"edition"],
        &metaplex_token_metadata::id(),
    );
    accounts[5].key = inside(&address);
    assert_eq!(
        Processor::process_stake_master_edition(&program(), &accounts),
        Err(ProgramError::InvalidSeeds)
    );
}

/// The accounts of a minting operation, by position.
fn mint_accounts() -> Vec<AccountInfo> {
    let mut accounts: Vec<AccountInfo> =
        (0..13u8).map(|i| info(key(100 + i), i == 4, Vec::new())).collect();
    accounts[2].key = master_edition_address();
    accounts[5].key = custody().0;
    accounts[6].key = token_account_address();
    accounts[8].key = mint();
    accounts
}

fn copy_number(invocation: &Invocation) -> u64 {
    let mut bytes = [0u8; 8];
    bytes.copy_from_slice(&invocation.instruction.data[1..9]);
    u64::from_le_bytes(bytes)
}

#[test]
fn mint_asks_the_metadata_program_for_the_copy() {
    let accounts = mint_accounts();
    let invocation = Processor::process_mint_new_edition(&program(), &accounts, 3).unwrap();
    let k = |i: usize| outside(&accounts[i].key);
    let expected = metaplex_token_metadata::instruction::mint_new_edition_from_master_edition_via_token(
        metaplex_token_metadata::id(),
        k(0),
        k(1),
        k(2),
        k(3),
        k(4),
        k(4),
        k(5),
        k(6),
        k(4),
        k(7),
        k(8),
        3,
    );
    assert_eq!(outside(&invocation.instruction.program_id), expected.program_id);
    assert_eq!(invocation.instruction.data, expected.data);
    assert_eq!(invocation.instruction.data, vec![11, 3, 0, 0, 0, 0, 0, 0, 0]);
    assert_eq!(invocation.instruction.accounts.len(), 14);
    for (ours, theirs) in invocation.instruction.accounts.iter().zip(expected.accounts.iter()) {
        assert_eq!(outside(&ours.pubkey), theirs.pubkey);
        assert_eq!(ours.is_signer, theirs.is_signer);
        assert_eq!(ours.is_writable, theirs.is_writable);
    }
    assert_eq!(invocation.accounts, vec![0, 1, 2, 3, 4, 4, 5, 6, 4, 7, 8, 9, 10, 11, 12]);
    assert_eq!(
        invocation.signer_seeds,
        Some(vec![b"relayer".to_vec(), program().to_bytes().to_vec(), vec![custody().1]])
    );
}

#[test]
fn mint_names_fourteen_accounts() {
    let accounts = mint_accounts();
    let invocation = Processor::process_mint_new_edition(&program(), &accounts, 500).unwrap();
    let (marker, _) = Outside::find_program_address(
        &[
            b"metadata",
            metaplex_token_metadata::id().as_ref(),
            mint().as_ref(),
            b"edition",
            b"2",
        ],
        &metaplex_token_metadata::id(),
    );
    let meta = |pubkey: Pubkey, is_signer: bool, is_writable: bool| AccountMeta {
        pubkey,
        is_signer,
        is_writable,
    };
    assert_eq!(invocation.instruction.program_id, inside(&metaplex_token_metadata::id()));
    assert_eq!(
        invocation.instruction.accounts,
        vec![
            meta(accounts[0].key, false, true),
            meta(accounts[1].key, false, true),
            meta(accounts[2].key, false, true),
            meta(accounts[3].key, false, true),
            meta(inside(&marker), false, true),
            meta(accounts[4].key, true, false),
            meta(accounts[4].key, true, true),
            meta(accounts[5].key, true, false),
            meta(accounts[6].key, false, false),
            meta(accounts[4].key, false, false),
            meta(accounts[7].key, false, false),
            meta(inside(&spl_token::id()), false, false),
            meta(inside(&solana_program::system_program::id()), false, false),
            meta(inside(&solana_program::sysvar::rent::id()), false, false),
        ]
    );
    assert_eq!(invocation.instruction.data, vec![11, 244, 1, 0, 0, 0, 0, 0, 0]);
}

#[test]
fn mint_names_the_custody_address_as_owner_of_the_master_token() {
    let accounts = mint_accounts();
    let invocation = Processor::process_mint_new_edition(&program(), &accounts, 1).unwrap();
    let owner = &invocation.instruction.accounts[7];
    assert_eq!(owner.pubkey, custody().0);
    assert!(owner.is_signer);
}

#[test]
fn mint_refuses_another_custody_address() {
    let mut accounts = mint_accounts();
    accounts[5].key = key(105);
    assert_eq!(
        Processor::process_mint_new_edition(&program(), &accounts, 1),
        Err(ProgramError::InvalidSeeds)
    );
    assert_eq!(
        Processor::process_mint_new_edition(&key(43), &mint_accounts(), 1),
        Err(ProgramError::InvalidSeeds)
    );
}

#[test]
fn mint_needs_thirteen_accounts() {
    let accounts = mint_accounts();
    for n in 0..13 {
        assert_eq!(
            Processor::process_mint_new_edition(&program(), &accounts[..n], 1),
            Err(ProgramError::NotEnoughAccountKeys)
        );
    }
}

#[test]
fn mint_does_not_read_the_records() {
    let mut accounts = mint_accounts();
    for account in accounts.iter_mut() {
        account.data = vec![255u8; 7];
        account.is_signer = false;
    }
    assert!(Processor::process_mint_new_edition(&program(), &accounts, 1).is_ok());
}

/// The registry, as far as the numbering of copies goes: issues a copy
/// unless its number was issued before from the same master edition.
fn registry_issues(records: &mut BTreeSet<([u8; 32], u64)>, invocation: &Invocation) -> bool {
    let master = invocation.instruction.accounts[2].pubkey.to_bytes();
    records.insert((master, copy_number(invocation)))
}

#[test]
fn copy_numbers_are_never_reused() {
    let accounts = mint_accounts();
    let mut records = BTreeSet::new();
    let n = 300u64;
    for edition in 1..=n {
        let invocation =
            Processor::process_mint_new_edition(&program(), &accounts, edition).unwrap();
        assert_eq!(copy_number(&invocation), edition);
        assert!(registry_issues(&mut records, &invocation));
    }
    assert_eq!(records.len() as u64, n);
    for edition in [1u64, 2, 150, n] {
        let again = Processor::process_mint_new_edition(&program(), &accounts, edition).unwrap();
        assert!(!registry_issues(&mut records, &again));
    }
    assert_eq!(records.len() as u64, n);
}

#[test]
fn copy_number_is_carried_unchanged() {
    let accounts = mint_accounts();
    for edition in [0u64, 1, 247, 248, 249, 1 << 32, u64::MAX] {
        let invocation =
            Processor::process_mint_new_edition(&program(), &accounts, edition).unwrap();
        assert_eq!(copy_number(&invocation), edition);
        assert_eq!(invocation.instruction.data[0], 11);
        assert_eq!(invocation.instruction.data.len(), 9);
    }
}

#[test]
fn instructions_are_dispatched_by_their_selector() {
    let staking = custody_accounts(0, Some(3), 1);
    assert_eq!(
        Processor::process_instruction(&program(), &staking, &[0]),
        Processor::process_stake_master_edition(&program(), &staking)
    );
    assert!(Processor::process_instruction(&program(), &staking, &[0]).is_ok());

    let unstaking = custody_accounts(3, Some(3), 1);
    assert_eq!(
        Processor::process_instruction(&program(), &unstaking, &[1]),
        Processor::process_unstake_master_edition(&program(), &unstaking)
    );
    assert!(Processor::process_instruction(&program(), &unstaking, &[1]).is_ok());
    assert_eq!(
        Processor::process_instruction(&program(), &staking, &[1]),
        Err(custom(NftError::OngoingSales))
    );

    let minting = mint_accounts();
    let payload = NftInstruction::MintNewEdition(9).pack();
    assert_eq!(
        Processor::process_instruction(&program(), &minting, &payload),
        Processor::process_mint_new_edition(&program(), &minting, 9)
    );
    assert!(Processor::process_instruction(&program(), &minting, &payload).is_ok());
}

#[test]
fn malformed_instructions_are_refused_before_the_accounts_are_read() {
    let refused: [&[u8]; 5] = [&[], &[3], &[0, 0], &[2], &[2, 1, 0, 0, 0, 0, 0, 0, 0, 0]];
    for payload in refused {
        assert_eq!(
            Processor::process_instruction(&program(), &[], payload),
            Err(ProgramError::InvalidInstructionData)
        );
        assert_eq!(
            Processor::process_instruction(&program(), &custody_accounts(0, None, 1), payload),
            Err(ProgramError::InvalidInstructionData)
        );
    }
    assert_eq!(
        Processor::process_instruction(&program(), &[], &[0]),
        Err(ProgramError::NotEnoughAccountKeys)
    );
}
