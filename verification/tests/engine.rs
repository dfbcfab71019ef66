use escrow::account::Account;
use escrow::error::{EscrowError, ProgramError};
use escrow::processor::{find_custody_address, Invocation, Plan, Processor, Settlement};
use escrow::pubkey::Pubkey;
use escrow::state::Escrow;
use escrow::token::AccountMeta;
use solana_program::account_info::AccountInfo;
use solana_program::program_option::COption;
use solana_program::program_pack::Pack;
use solana_program::sysvar::Sysvar;

type HostKey = solana_program::pubkey::Pubkey;

const RENT_EXEMPT_ESCROW: u64 = 2_129_760;
const TOKEN_ACCOUNT_RENT: u64 = 2_039_280;

fn key(n: u8) -> Pubkey {
    Pubkey { bytes: [n; 32] }
}

fn host_key(k: &Pubkey) -> HostKey {
    HostKey::new_from_array(k.bytes)
}

fn token_program_key() -> Pubkey {
    Pubkey { bytes: spl_token::id().to_bytes() }
}

fn system_key() -> Pubkey {
    Pubkey { bytes: solana_program::system_program::id().to_bytes() }
}

fn custody_address() -> (Pubkey, u8) {
    find_custody_address(&escrow::id()).unwrap()
}

fn wallet(k: Pubkey, lamports: u64, is_signer: bool) -> Account {
    Account { key: k, owner: system_key(), lamports, data: Vec::new(), is_signer, is_writable: true }
}

fn token_data(mint: &Pubkey, owner: &Pubkey, amount: u64, native: Option<u64>) -> Vec<u8> {
    let account = spl_token::state::Account {
        mint: host_key(mint),
        owner: host_key(owner),
        amount,
        delegate: COption::None,
        state: spl_token::state::AccountState::Initialized,
        is_native: match native {
            Some(reserve) => COption::Some(reserve),
            None => COption::None,
        },
        delegated_amount: 0,
        close_authority: COption::None,
    };
    let mut data = vec![0u8; spl_token::state::Account::LEN];
    spl_token::state::Account::pack(account, &mut data).unwrap();
    data
}

fn token_account(k: Pubkey, mint: &Pubkey, owner: &Pubkey, amount: u64) -> Account {
    Account {
        key: k,
        owner: token_program_key(),
        lamports: TOKEN_ACCOUNT_RENT,
        data: token_data(mint, owner, amount, None),
        is_signer: false,
        is_writable: true,
    }
}

fn native_token_account(k: Pubkey, owner: &Pubkey, amount: u64) -> Account {
    let mint = Pubkey { bytes: spl_token::native_mint::id().to_bytes() };
    Account {
        key: k,
        owner: token_program_key(),
        lamports: TOKEN_ACCOUNT_RENT + amount,
        data: token_data(&mint, owner, amount, Some(TOKEN_ACCOUNT_RENT)),
        is_signer: false,
        is_writable: true,
    }
}

fn rent_data(rent: &solana_program::rent::Rent) -> Vec<u8> {
    let id = solana_program::sysvar::rent::id();
    let mut lamports = 1u64;
    let mut data = vec![0u8; 17];
    {
        let mut info = AccountInfo::new(&id, false, false, &mut lamports, &mut data, &id, false, 0);
        rent.to_account_info(&mut info).unwrap();
    }
    data
}

fn rent_account() -> Account {
    Account {
        key: Pubkey { bytes: solana_program::sysvar::rent::id().to_bytes() },
        owner: Pubkey { bytes: solana_program::sysvar::id().to_bytes() },
        lamports: 1,
        data: rent_data(&solana_program::rent::Rent::default()),
        is_signer: false,
        is_writable: false,
    }
}

fn program_account(k: Pubkey) -> Account {
    Account { key: k, owner: key(0), lamports: 1, data: Vec::new(), is_signer: false, is_writable: false }
}

fn escrow_account(k: Pubkey, lamports: u64) -> Account {
    Account {
        key: k,
        owner: escrow::id(),
        lamports,
        data: vec![0u8; 178],
        is_signer: false,
        is_writable: true,
    }
}

const PAYER: u8 = 1;
const CUSTODY: u8 = 2;
const AUTHORITY: u8 = 3;
const ESCROW: u8 = 4;
const TAKER: u8 = 5;
const FEE_TAKER: u8 = 6;
const FEE_PAYER: u8 = 7;
const MINT: u8 = 8;
const TAKER_OWNER: u8 = 9;

fn init_accounts(held: u64) -> Vec<Account> {
    vec![
        wallet(key(PAYER), 10_000_000, true),
        token_account(key(CUSTODY), &key(MINT), &key(PAYER), held),
        wallet(key(AUTHORITY), 0, true),
        escrow_account(key(ESCROW), RENT_EXEMPT_ESCROW),
        rent_account(),
        program_account(token_program_key()),
    ]
}

fn settle_accounts(custody: Account, escrow: Account) -> Vec<Account> {
    vec![
        wallet(key(AUTHORITY), 0, true),
        token_account(key(TAKER), &key(MINT), &key(TAKER_OWNER), 7),
        token_account(key(FEE_TAKER), &key(MINT), &key(TAKER_OWNER), 0),
        custody,
        escrow,
        wallet(key(FEE_PAYER), 5, false),
        program_account(token_program_key()),
        wallet(custody_address().0, 0, false),
    ]
}

fn escrow_error(e: EscrowError) -> ProgramError {
    ProgramError::Custom(e.code())
}

/// Hands one call to the token program, as the host would, and writes what
/// the token program did back into every entry of the account it touched.
fn run_token_program(accounts: &mut Vec<Account>, call: &Invocation) -> Result<(), u64> {
    assert_eq!(call.instruction.program_id, token_program_key());
    let custody = custody_address();
    let mut keys: Vec<HostKey> = Vec::new();
    let mut owners: Vec<HostKey> = Vec::new();
    let mut lamports: Vec<u64> = Vec::new();
    let mut data: Vec<Vec<u8>> = Vec::new();
    let mut signers: Vec<bool> = Vec::new();
    let mut writable: Vec<bool> = Vec::new();
    for meta in call.instruction.accounts.iter() {
        let handed = call.accounts.iter().find(|&&i| accounts[i].key == meta.pubkey);
        let account = &accounts[*handed.expect("every referenced account is handed over")];
        if meta.is_signer {
            let derived = call.signer_bump == Some(custody.1) && meta.pubkey == custody.0;
            assert!(account.is_signer || derived, "the call claims a signature it does not have");
        }
        match keys.iter().position(|k| *k == host_key(&meta.pubkey)) {
            Some(at) => {
                signers[at] = signers[at] || meta.is_signer;
                writable[at] = writable[at] || meta.is_writable;
            }
            None => {
                keys.push(host_key(&account.key));
                owners.push(host_key(&account.owner));
                lamports.push(account.lamports);
                data.push(account.data.clone());
                signers.push(meta.is_signer);
                writable.push(meta.is_writable);
            }
        }
    }
    let result = {
        let mut distinct: Vec<AccountInfo> = Vec::new();
        for (((k, o), l), d) in keys.iter().zip(owners.iter()).zip(lamports.iter_mut()).zip(data.iter_mut()) {
            let at = distinct.len();
            distinct.push(AccountInfo::new(k, signers[at], writable[at], l, d, o, false, 0));
        }
        let infos: Vec<AccountInfo> = call
            .instruction
            .accounts
            .iter()
            .map(|meta| {
                let at = keys.iter().position(|k| *k == host_key(&meta.pubkey)).unwrap();
                distinct[at].clone()
            })
            .collect();
        spl_token::processor::Processor::process(&spl_token::id(), &infos, &call.instruction.data)
    };
    result.map_err(u64::from)?;
    for account in accounts.iter_mut() {
        if let Some(at) = keys.iter().position(|k| *k == host_key(&account.key)) {
            account.lamports = lamports[at];
            account.data = data[at].clone();
            account.owner = Pubkey { bytes: owners[at].to_bytes() };
        }
    }
    Ok(())
}

/// Runs one instruction to its end, as the host would: the first step, the
/// calls of its plan, and the completion of a settlement.
fn run(accounts: &mut Vec<Account>, instruction_data: &[u8]) -> Result<(), u64> {
    let plan = Processor::process(&escrow::id(), accounts, instruction_data).map_err(|e| e.to_code())?;
    for call in plan.invocations.iter() {
        run_token_program(accounts, call)?;
    }
    if let Some(settlement) = plan.settlement {
        Processor::complete_settlement(accounts, &settlement).map_err(|e| e.to_code())?;
    }
    Ok(())
}

fn instruction(tag: u8, value: u64) -> Vec<u8> {
    let mut bytes = vec![tag];
    bytes.extend_from_slice(&value.to_le_bytes());
    bytes
}

fn token_amount(account: &Account) -> u64 {
    spl_token::state::Account::unpack(&account.data).unwrap().amount
}

fn opened(held: u64) -> Vec<Account> {
    let mut accounts = init_accounts(held);
    run(&mut accounts, &instruction(0, held)).unwrap();
    accounts
}

fn settled(held: u64, fee: u64) -> Vec<Account> {
    let after_init = opened(held);
    let mut accounts = settle_accounts(after_init[1].clone(), after_init[3].clone());
    run(&mut accounts, &instruction(1, fee)).unwrap();
    accounts
}

#[test]
fn init_writes_the_record_and_hands_over_custody() {
    let mut accounts = init_accounts(1000);
    let before = accounts.clone();
    let plan = Processor::process_init_escrow(&mut accounts, 1000, &escrow::id()).unwrap();

    let record = Escrow::unpack(&accounts[3].data).unwrap();
    assert!(record.is_initialized);
    assert!(!record.is_settled);
    assert_eq!(record.payer_pubkey, key(PAYER));
    assert_eq!(record.payer_temp_token_account_pubkey, key(CUSTODY));
    assert_eq!(record.authority_pubkey, key(AUTHORITY));
    assert_eq!(record.payee_pubkey, key(0));
    assert_eq!(record.fee_taker_pubkey, key(0));
    assert_eq!(record.amount, 1000);
    assert_eq!(record.fee, 0);
    for i in [0usize, 1, 2, 4, 5] {
        assert_eq!(accounts[i], before[i]);
    }
    assert_eq!(accounts[3].lamports, before[3].lamports);

    assert!(plan.settlement.is_none());
    assert_eq!(plan.invocations.len(), 1);
    let call = &plan.invocations[0];
    assert_eq!(call.accounts, vec![1, 0, 5]);
    assert_eq!(call.signer_bump, None);
    let mut data = vec![6u8, 2, 1];
    data.extend_from_slice(&custody_address().0.bytes);
    assert_eq!(call.instruction.data, data);
    assert_eq!(call.instruction.program_id, token_program_key());
    assert_eq!(
        call.instruction.accounts,
        vec![
            AccountMeta { pubkey: key(CUSTODY), is_signer: false, is_writable: true },
            AccountMeta { pubkey: key(PAYER), is_signer: false, is_writable: false },
            AccountMeta { pubkey: key(PAYER), is_signer: true, is_writable: false },
        ]
    );
}

#[test]
fn init_call_is_what_the_token_program_builds() {
    let mut accounts = init_accounts(1000);
    let plan = Processor::process_init_escrow(&mut accounts, 1000, &escrow::id()).unwrap();
    let payer = host_key(&key(PAYER));
    let expected = spl_token::instruction::set_authority(
        &spl_token::id(),
        &host_key(&key(CUSTODY)),
        Some(&host_key(&custody_address().0)),
        spl_token::instruction::AuthorityType::AccountOwner,
        &payer,
        &[&payer],
    )
    .unwrap();
    let built = &plan.invocations[0].instruction;
    assert_eq!(host_key(&built.program_id), expected.program_id);
    assert_eq!(built.data, expected.data);
    assert_eq!(built.accounts.len(), expected.accounts.len());
    for (ours, theirs) in built.accounts.iter().zip(expected.accounts.iter()) {
        assert_eq!(host_key(&ours.pubkey), theirs.pubkey);
        assert_eq!(ours.is_signer, theirs.is_signer);
        assert_eq!(ours.is_writable, theirs.is_writable);
    }
}

#[test]
fn init_then_token_program_makes_custody_address_the_owner() {
    let accounts = opened(1000);
    let custody = spl_token::state::Account::unpack(&accounts[1].data).unwrap();
    assert_eq!(custody.owner, host_key(&custody_address().0));
    assert_eq!(custody.amount, 1000);
}

#[test]
fn init_without_payer_signature_is_refused() {
    let mut accounts = init_accounts(1000);
    accounts[0].is_signer = false;
    let before = accounts.clone();
    assert_eq!(
        Processor::process_init_escrow(&mut accounts, 1000, &escrow::id()),
        Err(ProgramError::MissingRequiredSignature)
    );
    assert_eq!(accounts, before);
}

#[test]
fn init_without_authority_signature_is_refused() {
    let mut accounts = init_accounts(1000);
    accounts[2].is_signer = false;
    assert_eq!(
        Processor::process_init_escrow(&mut accounts, 1000, &escrow::id()),
        Err(ProgramError::MissingRequiredSignature)
    );
}

#[test]
fn init_with_custody_account_of_another_program_is_refused() {
    let mut accounts = init_accounts(1000);
    accounts[1].owner = key(77);
    assert_eq!(
        Processor::process_init_escrow(&mut accounts, 1000, &escrow::id()),
        Err(ProgramError::IncorrectProgramId)
    );
}

#[test]
fn init_with_malformed_custody_account_is_refused() {
    let mut accounts = init_accounts(1000);
    accounts[1].data.truncate(100);
    assert_eq!(
        Processor::process_init_escrow(&mut accounts, 1000, &escrow::id()),
        Err(ProgramError::InvalidAccountData)
    );
    let mut accounts = init_accounts(1000);
    accounts[1].data = vec![0u8; 165];
    assert_eq!(
        Processor::process_init_escrow(&mut accounts, 1000, &escrow::id()),
        Err(ProgramError::UninitializedAccount)
    );
}

#[test]
fn init_with_other_amount_than_held_is_a_mismatch() {
    let mut accounts = init_accounts(1000);
    let before = accounts.clone();
    assert_eq!(
        Processor::process_init_escrow(&mut accounts, 999, &escrow::id()),
        Err(escrow_error(EscrowError::ExpectedAmountMismatch))
    );
    assert_eq!(accounts, before);
    assert_eq!(
        Processor::process_init_escrow(&mut accounts, 1001, &escrow::id()),
        Err(ProgramError::Custom(2))
    );
}

#[test]
fn init_needs_a_rent_exempt_escrow_account() {
    let mut accounts = init_accounts(1000);
    accounts[3].lamports = RENT_EXEMPT_ESCROW - 1;
    let before = accounts.clone();
    assert_eq!(
        Processor::process_init_escrow(&mut accounts, 1000, &escrow::id()),
        Err(escrow_error(EscrowError::NotRentExempt))
    );
    assert_eq!(accounts, before);
    accounts[3].lamports = RENT_EXEMPT_ESCROW;
    assert!(Processor::process_init_escrow(&mut accounts, 1000, &escrow::id()).is_ok());
}

#[test]
fn init_with_wrong_rent_account_is_an_invalid_argument() {
    let mut accounts = init_accounts(1000);
    accounts[4].key = key(50);
    assert_eq!(
        Processor::process_init_escrow(&mut accounts, 1000, &escrow::id()),
        Err(ProgramError::InvalidArgument)
    );
    let mut accounts = init_accounts(1000);
    accounts[4].data.truncate(3);
    assert_eq!(
        Processor::process_init_escrow(&mut accounts, 1000, &escrow::id()),
        Err(ProgramError::InvalidArgument)
    );
}

#[test]
fn init_with_rent_rate_beyond_range_is_an_amount_overflow() {
    let mut accounts = init_accounts(1000);
    let rent = solana_program::rent::Rent {
        lamports_per_byte_year: u64::MAX / 300,
        ..solana_program::rent::Rent::default()
    };
    accounts[4].data = rent_data(&rent);
    let before = accounts.clone();
    assert_eq!(
        Processor::process_init_escrow(&mut accounts, 1000, &escrow::id()),
        Err(escrow_error(EscrowError::AmountOverflow))
    );
    assert_eq!(accounts, before);
}

#[test]
fn init_with_free_rent_accepts_an_empty_balance() {
    let mut accounts = init_accounts(1000);
    accounts[4].data = rent_data(&solana_program::rent::Rent::free());
    accounts[3].lamports = 0;
    assert!(Processor::process_init_escrow(&mut accounts, 1000, &escrow::id()).is_ok());
}

#[test]
fn init_with_escrow_account_of_wrong_size_is_refused() {
    let mut accounts = init_accounts(1000);
    accounts[3].data = vec![0u8; 177];
    accounts[3].lamports = 10_000_000;
    assert_eq!(
        Processor::process_init_escrow(&mut accounts, 1000, &escrow::id()),
        Err(ProgramError::InvalidAccountData)
    );
    let mut accounts = init_accounts(1000);
    accounts[3].data[0] = 2;
    assert_eq!(
        Processor::process_init_escrow(&mut accounts, 1000, &escrow::id()),
        Err(ProgramError::InvalidAccountData)
    );
}

#[test]
fn init_twice_is_refused() {
    let mut accounts = init_accounts(1000);
    Processor::process_init_escrow(&mut accounts, 1000, &escrow::id()).unwrap();
    let before = accounts.clone();
    assert_eq!(
        Processor::process_init_escrow(&mut accounts, 1000, &escrow::id()),
        Err(ProgramError::AccountAlreadyInitialized)
    );
    assert_eq!(accounts, before);
}

#[test]
fn init_with_too_few_accounts_is_refused() {
    for count in 0..6 {
        let mut accounts = init_accounts(1000);
        accounts.truncate(count);
        let before = accounts.clone();
        assert_eq!(
            Processor::process_init_escrow(&mut accounts, 1000, &escrow::id()),
            Err(ProgramError::NotEnoughAccountKeys)
        );
        assert_eq!(accounts, before);
    }
}

#[test]
fn init_with_another_token_program_is_refused_and_writes_nothing() {
    let mut accounts = init_accounts(1000);
    accounts[5].key = key(66);
    let before = accounts.clone();
    assert_eq!(
        Processor::process_init_escrow(&mut accounts, 1000, &escrow::id()),
        Err(ProgramError::IncorrectProgramId)
    );
    assert_eq!(accounts, before);
}

#[test]
fn init_writes_through_every_entry_of_the_escrow_account() {
    let mut accounts = init_accounts(1000);
    let again = accounts[3].clone();
    accounts.push(again);
    Processor::process_init_escrow(&mut accounts, 1000, &escrow::id()).unwrap();
    assert_eq!(accounts[6], accounts[3]);
    assert!(Escrow::unpack(&accounts[6].data).unwrap().is_initialized);
}

#[test]
fn settle_plans_the_transfers_and_the_close() {
    let after_init = opened(1000);
    let accounts = settle_accounts(after_init[1].clone(), after_init[3].clone());
    let plan = Processor::process_settlement(&accounts, 50, &escrow::id()).unwrap();
    let (pda, bump) = custody_address();

    assert_eq!(plan.invocations.len(), 3);
    let metas = |to: u8| {
        vec![
            AccountMeta { pubkey: key(CUSTODY), is_signer: false, is_writable: true },
            AccountMeta { pubkey: key(to), is_signer: false, is_writable: true },
            AccountMeta { pubkey: pda, is_signer: false, is_writable: false },
            AccountMeta { pubkey: pda, is_signer: true, is_writable: false },
        ]
    };
    let to_taker = &plan.invocations[0];
    assert_eq!(to_taker.instruction.data, vec![3, 0xb6, 0x03, 0, 0, 0, 0, 0, 0]);
    assert_eq!(to_taker.instruction.accounts, metas(TAKER));
    assert_eq!(to_taker.accounts, vec![3, 1, 7, 6]);
    assert_eq!(to_taker.signer_bump, Some(bump));
    let to_fee_taker = &plan.invocations[1];
    assert_eq!(to_fee_taker.instruction.data, vec![3, 50, 0, 0, 0, 0, 0, 0, 0]);
    assert_eq!(to_fee_taker.instruction.accounts, metas(FEE_TAKER));
    assert_eq!(to_fee_taker.accounts, vec![3, 2, 7, 6]);
    assert_eq!(to_fee_taker.signer_bump, Some(bump));
    let close = &plan.invocations[2];
    assert_eq!(close.instruction.data, vec![9]);
    assert_eq!(close.instruction.accounts, metas(FEE_PAYER));
    assert_eq!(close.accounts, vec![3, 5, 7, 6]);
    assert_eq!(close.signer_bump, Some(bump));
    for call in plan.invocations.iter() {
        assert_eq!(call.instruction.program_id, token_program_key());
    }

    let record = Escrow::unpack(&accounts[4].data).unwrap();
    assert_eq!(
        plan.settlement,
        Some(Settlement { is_native: false, amount: 950, fee: 50, escrow: record })
    );
}

#[test]
fn settle_calls_are_what_the_token_program_builds() {
    let after_init = opened(1000);
    let accounts = settle_accounts(after_init[1].clone(), after_init[3].clone());
    let plan = Processor::process_settlement(&accounts, 50, &escrow::id()).unwrap();
    let pda = host_key(&custody_address().0);
    let custody = host_key(&key(CUSTODY));
    let expected = vec![
        spl_token::instruction::transfer(&spl_token::id(), &custody, &host_key(&key(TAKER)), &pda, &[&pda], 950).unwrap(),
        spl_token::instruction::transfer(&spl_token::id(), &custody, &host_key(&key(FEE_TAKER)), &pda, &[&pda], 50).unwrap(),
        spl_token::instruction::close_account(&spl_token::id(), &custody, &host_key(&key(FEE_PAYER)), &pda, &[&pda]).unwrap(),
    ];
    assert_eq!(plan.invocations.len(), expected.len());
    for (call, theirs) in plan.invocations.iter().zip(expected.iter()) {
        assert_eq!(host_key(&call.instruction.program_id), theirs.program_id);
        assert_eq!(call.instruction.data, theirs.data);
        assert_eq!(call.instruction.accounts.len(), theirs.accounts.len());
        for (ours, meta) in call.instruction.accounts.iter().zip(theirs.accounts.iter()) {
            assert_eq!(host_key(&ours.pubkey), meta.pubkey);
            assert_eq!(ours.is_signer, meta.is_signer);
            assert_eq!(ours.is_writable, meta.is_writable);
        }
    }
}

#[test]
fn end_to_end_settlement_pays_taker_and_fee_taker() {
    let mut accounts = init_accounts(1000);
    run(&mut accounts, &instruction(0, 1000)).unwrap();

    let mut accounts = settle_accounts(accounts[1].clone(), accounts[3].clone());
    let fee_payer_before = accounts[5].lamports;
    let custody_rent = accounts[3].lamports;
    run(&mut accounts, &instruction(1, 50)).unwrap();

    assert_eq!(token_amount(&accounts[1]), 7 + 950);
    assert_eq!(token_amount(&accounts[2]), 50);
    assert_eq!(accounts[3].lamports, 0);
    assert_eq!(accounts[3].data, vec![0u8; 165]);
    assert_eq!(accounts[3].owner, system_key());
    assert_eq!(accounts[5].lamports, fee_payer_before + custody_rent);

    let record = Escrow::unpack(&accounts[4].data).unwrap();
    assert!(record.is_initialized);
    assert!(record.is_settled);
    assert_eq!(record.fee, 50);
    assert_eq!(record.amount, 1000);
    assert_eq!(record.payee_pubkey, key(TAKER));
    assert_eq!(record.fee_taker_pubkey, key(FEE_TAKER));
    assert_eq!(record.payer_pubkey, key(PAYER));
    assert_eq!(record.authority_pubkey, key(AUTHORITY));
    assert_eq!(record.payer_temp_token_account_pubkey, key(CUSTODY));
}

#[test]
fn settle_without_fee_makes_no_fee_transfer() {
    let after_init = opened(1000);
    let mut accounts = settle_accounts(after_init[1].clone(), after_init[3].clone());
    let plan = Processor::process_settlement(&accounts, 0, &escrow::id()).unwrap();
    assert_eq!(plan.invocations.len(), 2);
    assert_eq!(plan.invocations[0].instruction.data, vec![3, 0xe8, 0x03, 0, 0, 0, 0, 0, 0]);
    assert_eq!(plan.invocations[1].instruction.data, vec![9]);
    run(&mut accounts, &instruction(1, 0)).unwrap();
    assert_eq!(token_amount(&accounts[1]), 7 + 1000);
    assert_eq!(token_amount(&accounts[2]), 0);
}

#[test]
fn settle_with_whole_amount_as_fee() {
    let mut accounts = settled(1000, 1000);
    assert_eq!(token_amount(&accounts[1]), 7);
    assert_eq!(token_amount(&accounts[2]), 1000);
    accounts.truncate(0);
}

#[test]
fn settle_with_fee_above_held_amount_is_a_fee_overflow() {
    let after_init = opened(1000);
    let mut accounts = settle_accounts(after_init[1].clone(), after_init[3].clone());
    let before = accounts.clone();
    assert_eq!(
        Processor::process_settlement(&accounts, 1001, &escrow::id()),
        Err(escrow_error(EscrowError::FeeOverflow))
    );
    assert_eq!(
        Processor::process(&escrow::id(), &mut accounts, &instruction(1, u64::MAX)),
        Err(ProgramError::Custom(6))
    );
    assert_eq!(accounts, before);
}

#[test]
fn settle_by_another_identity_is_refused_before_anything_moves() {
    let after_init = opened(1000);
    let mut accounts = settle_accounts(after_init[1].clone(), after_init[3].clone());
    accounts[0] = wallet(key(99), 0, true);
    let before = accounts.clone();
    assert_eq!(
        Processor::process(&escrow::id(), &mut accounts, &instruction(1, 50)),
        Err(ProgramError::InvalidAccountData)
    );
    assert_eq!(accounts, before);
}

#[test]
fn settle_without_signature_is_refused() {
    let after_init = opened(1000);
    let mut accounts = settle_accounts(after_init[1].clone(), after_init[3].clone());
    accounts[0].is_signer = false;
    assert_eq!(
        Processor::process_settlement(&accounts, 50, &escrow::id()),
        Err(ProgramError::MissingRequiredSignature)
    );
}

#[test]
fn settle_with_another_custody_account_is_refused() {
    let after_init = opened(1000);
    let mut accounts = settle_accounts(after_init[1].clone(), after_init[3].clone());
    accounts[3].key = key(42);
    assert_eq!(
        Processor::process_settlement(&accounts, 50, &escrow::id()),
        Err(ProgramError::InvalidAccountData)
    );
}

#[test]
fn settle_with_wrong_custody_address_is_refused() {
    let after_init = opened(1000);
    let mut accounts = settle_accounts(after_init[1].clone(), after_init[3].clone());
    accounts[7].key = key(43);
    assert_eq!(
        Processor::process_settlement(&accounts, 50, &escrow::id()),
        Err(ProgramError::InvalidAccountData)
    );
}

#[test]
fn settle_for_another_program_derives_another_custody_address() {
    let after_init = opened(1000);
    let accounts = settle_accounts(after_init[1].clone(), after_init[3].clone());
    assert_eq!(
        Processor::process_settlement(&accounts, 50, &key(200)),
        Err(ProgramError::InvalidAccountData)
    );
}

#[test]
fn settle_on_unopened_escrow_is_refused() {
    let after_init = opened(1000);
    let mut accounts = settle_accounts(after_init[1].clone(), escrow_account(key(ESCROW), RENT_EXEMPT_ESCROW));
    assert_eq!(
        Processor::process_settlement(&accounts, 50, &escrow::id()),
        Err(ProgramError::UninitializedAccount)
    );
    accounts[4].data = vec![0u8; 10];
    assert_eq!(
        Processor::process_settlement(&accounts, 50, &escrow::id()),
        Err(ProgramError::InvalidAccountData)
    );
}

#[test]
fn settle_with_another_token_program_is_refused() {
    let after_init = opened(1000);
    let mut accounts = settle_accounts(after_init[1].clone(), after_init[3].clone());
    accounts[6].key = key(66);
    assert_eq!(
        Processor::process_settlement(&accounts, 50, &escrow::id()),
        Err(ProgramError::IncorrectProgramId)
    );
}

#[test]
fn settle_with_too_few_accounts_is_refused() {
    let after_init = opened(1000);
    for count in 0..8 {
        let mut accounts = settle_accounts(after_init[1].clone(), after_init[3].clone());
        accounts.truncate(count);
        assert_eq!(
            Processor::process_settlement(&accounts, 50, &escrow::id()),
            Err(ProgramError::NotEnoughAccountKeys)
        );
    }
}

#[test]
fn settle_twice_is_refused() {
    let mut accounts = settled(1000, 50);
    let before = accounts.clone();
    let again = Processor::process(&escrow::id(), &mut accounts, &instruction(1, 50));
    assert!(again.is_err());
    assert_eq!(accounts, before);

    let after_init = opened(1000);
    let mut fresh = settle_accounts(after_init[1].clone(), before[4].clone());
    assert_eq!(
        Processor::process(&escrow::id(), &mut fresh, &instruction(1, 50)),
        Err(escrow_error(EscrowError::AccountAlreadySettled))
    );
}

fn native_settle_accounts(held: u64) -> Vec<Account> {
    let mut init = vec![
        wallet(key(PAYER), 10_000_000, true),
        native_token_account(key(CUSTODY), &key(PAYER), held),
        wallet(key(AUTHORITY), 0, true),
        escrow_account(key(ESCROW), RENT_EXEMPT_ESCROW),
        rent_account(),
        program_account(token_program_key()),
    ];
    run(&mut init, &instruction(0, held)).unwrap();
    vec![
        wallet(key(AUTHORITY), 0, true),
        wallet(key(TAKER), 100, false),
        wallet(key(FEE_TAKER), 200, false),
        init[1].clone(),
        init[3].clone(),
        wallet(key(FEE_PAYER), 5, false),
        program_account(token_program_key()),
        wallet(custody_address().0, 0, false),
    ]
}

#[test]
fn native_settlement_closes_custody_into_escrow_and_splits_balances() {
    let mut accounts = native_settle_accounts(1000);
    let plan = Processor::process_settlement(&accounts, 50, &escrow::id()).unwrap();
    let (pda, bump) = custody_address();
    assert_eq!(plan.invocations.len(), 1);
    assert_eq!(plan.invocations[0].instruction.data, vec![9]);
    assert_eq!(plan.invocations[0].accounts, vec![3, 4, 7, 6]);
    assert_eq!(plan.invocations[0].signer_bump, Some(bump));
    assert_eq!(
        plan.invocations[0].instruction.accounts,
        vec![
            AccountMeta { pubkey: key(CUSTODY), is_signer: false, is_writable: true },
            AccountMeta { pubkey: key(ESCROW), is_signer: false, is_writable: true },
            AccountMeta { pubkey: pda, is_signer: false, is_writable: false },
            AccountMeta { pubkey: pda, is_signer: true, is_writable: false },
        ]
    );
    let settlement = plan.settlement.unwrap();
    assert!(settlement.is_native);
    assert_eq!(settlement.amount, 950);
    assert_eq!(settlement.fee, 50);

    run(&mut accounts, &instruction(1, 50)).unwrap();
    assert_eq!(accounts[1].lamports, 100 + 950);
    assert_eq!(accounts[2].lamports, 200 + 50);
    assert_eq!(accounts[3].lamports, 0);
    assert_eq!(accounts[4].lamports, RENT_EXEMPT_ESCROW + TOKEN_ACCOUNT_RENT);
    assert_eq!(accounts[5].lamports, 5);
    let record = Escrow::unpack(&accounts[4].data).unwrap();
    assert!(record.is_settled);
    assert_eq!(record.fee, 50);
    assert_eq!(record.payee_pubkey, key(TAKER));
    assert_eq!(record.fee_taker_pubkey, key(FEE_TAKER));
}

fn native_remainder(accounts: &Vec<Account>, amount: u64, fee: u64) -> Settlement {
    Settlement { is_native: true, amount, fee, escrow: Escrow::unpack(&accounts[4].data).unwrap() }
}

#[test]
fn taker_balance_at_maximum_is_an_amount_overflow() {
    let mut accounts = native_settle_accounts(1000);
    accounts[4].lamports += 1000;
    accounts[1].lamports = u64::MAX;
    let before = accounts.clone();
    let settlement = native_remainder(&accounts, 1, 0);
    assert_eq!(
        Processor::complete_settlement(&mut accounts, &settlement),
        Err(escrow_error(EscrowError::AmountOverflow))
    );
    assert_eq!(accounts, before);
    assert_eq!(accounts[1].lamports, u64::MAX);
}

#[test]
fn fee_taker_balance_at_maximum_undoes_the_payment_to_the_taker() {
    let mut accounts = native_settle_accounts(1000);
    accounts[4].lamports += 1000;
    accounts[2].lamports = u64::MAX - 49;
    let before = accounts.clone();
    let settlement = native_remainder(&accounts, 950, 50);
    assert_eq!(
        Processor::complete_settlement(&mut accounts, &settlement),
        Err(ProgramError::Custom(4))
    );
    assert_eq!(accounts, before);
    accounts[2].lamports = u64::MAX - 50;
    assert_eq!(Processor::complete_settlement(&mut accounts, &settlement), Ok(()));
    assert_eq!(accounts[2].lamports, u64::MAX);
    assert_eq!(accounts[1].lamports, 100 + 950);
    assert_eq!(accounts[4].lamports, before[4].lamports - 1000);
}

#[test]
fn escrow_balance_below_the_amount_is_an_amount_overflow() {
    let mut accounts = native_settle_accounts(1000);
    accounts[4].lamports = 949;
    let before = accounts.clone();
    let settlement = native_remainder(&accounts, 950, 50);
    assert_eq!(
        Processor::complete_settlement(&mut accounts, &settlement),
        Err(escrow_error(EscrowError::AmountOverflow))
    );
    assert_eq!(accounts, before);
    accounts[4].lamports = 999;
    assert_eq!(
        Processor::complete_settlement(&mut accounts, &settlement),
        Err(escrow_error(EscrowError::AmountOverflow))
    );
    assert_eq!(accounts[4].lamports, 999);
    assert_eq!(accounts[1].lamports, 100);
}

#[test]
fn native_payout_to_the_same_account_twice_adds_up() {
    let mut accounts = native_settle_accounts(1000);
    accounts[4].lamports = 5000;
    accounts[2] = accounts[1].clone();
    let settlement = native_remainder(&accounts, 950, 50);
    assert_eq!(Processor::complete_settlement(&mut accounts, &settlement), Ok(()));
    assert_eq!(accounts[1].lamports, 100 + 1000);
    assert_eq!(accounts[2].lamports, 100 + 1000);
    assert_eq!(accounts[4].lamports, 4000);
}

#[test]
fn native_payout_to_the_escrow_account_itself_changes_no_balance() {
    let mut accounts = native_settle_accounts(1000);
    accounts[4].lamports = 5000;
    accounts[1] = accounts[4].clone();
    let settlement = native_remainder(&accounts, 950, 0);
    assert_eq!(Processor::complete_settlement(&mut accounts, &settlement), Ok(()));
    assert_eq!(accounts[4].lamports, 5000);
    assert_eq!(accounts[1], accounts[4]);
}

#[test]
fn completion_needs_five_accounts_and_a_record_sized_escrow_account() {
    let mut accounts = native_settle_accounts(1000);
    let settlement = Settlement { is_native: false, amount: 950, fee: 50, escrow: Escrow::unpack(&accounts[4].data).unwrap() };
    let mut short = accounts.clone();
    short.truncate(4);
    assert_eq!(
        Processor::complete_settlement(&mut short, &settlement),
        Err(ProgramError::NotEnoughAccountKeys)
    );
    accounts[4].data.push(0);
    let before = accounts.clone();
    assert_eq!(
        Processor::complete_settlement(&mut accounts, &settlement),
        Err(ProgramError::InvalidAccountData)
    );
    assert_eq!(accounts, before);
}

fn close_accounts(escrow: Account) -> Vec<Account> {
    vec![wallet(key(AUTHORITY), 0, true), escrow, wallet(key(FEE_PAYER), 5, false)]
}

#[test]
fn close_before_settle_is_refused() {
    let after_init = opened(1000);
    let mut accounts = close_accounts(after_init[3].clone());
    let before = accounts.clone();
    assert_eq!(
        Processor::process_close(&mut accounts, &escrow::id()),
        Err(escrow_error(EscrowError::AccountNotSettled))
    );
    assert_eq!(
        Processor::process(&escrow::id(), &mut accounts, &[2]),
        Err(ProgramError::Custom(7))
    );
    assert_eq!(accounts, before);
}

#[test]
fn close_after_settle_moves_the_whole_balance() {
    let after_settle = settled(1000, 50);
    let mut accounts = close_accounts(after_settle[4].clone());
    let plan = Processor::process(&escrow::id(), &mut accounts, &[2]).unwrap();
    assert_eq!(plan, Plan { invocations: Vec::new(), settlement: None });
    assert_eq!(accounts[2].lamports, 5 + RENT_EXEMPT_ESCROW);
    assert_eq!(accounts[1].lamports, 0);
    assert_eq!(accounts[1].data, Vec::<u8>::new());
    assert_eq!(accounts[0], wallet(key(AUTHORITY), 0, true));
}

#[test]
fn close_by_another_identity_is_refused() {
    let after_settle = settled(1000, 50);
    let mut accounts = close_accounts(after_settle[4].clone());
    accounts[0] = wallet(key(99), 0, true);
    assert_eq!(
        Processor::process_close(&mut accounts, &escrow::id()),
        Err(ProgramError::InvalidAccountData)
    );
    accounts[0] = wallet(key(AUTHORITY), 0, false);
    assert_eq!(
        Processor::process_close(&mut accounts, &escrow::id()),
        Err(ProgramError::MissingRequiredSignature)
    );
}

#[test]
fn close_of_an_account_of_another_program_is_refused() {
    let after_settle = settled(1000, 50);
    let mut accounts = close_accounts(after_settle[4].clone());
    accounts[1].owner = key(31);
    assert_eq!(
        Processor::process_close(&mut accounts, &escrow::id()),
        Err(ProgramError::InvalidAccountData)
    );
}

#[test]
fn close_into_a_full_account_is_an_amount_overflow() {
    let after_settle = settled(1000, 50);
    let mut accounts = close_accounts(after_settle[4].clone());
    accounts[2].lamports = u64::MAX - RENT_EXEMPT_ESCROW + 1;
    let before = accounts.clone();
    assert_eq!(
        Processor::process_close(&mut accounts, &escrow::id()),
        Err(escrow_error(EscrowError::AmountOverflow))
    );
    assert_eq!(accounts, before);
    accounts[2].lamports = u64::MAX - RENT_EXEMPT_ESCROW;
    assert!(Processor::process_close(&mut accounts, &escrow::id()).is_ok());
    assert_eq!(accounts[2].lamports, u64::MAX);
}

#[test]
fn close_with_too_few_accounts_is_refused() {
    let after_settle = settled(1000, 50);
    for count in 0..3 {
        let mut accounts = close_accounts(after_settle[4].clone());
        accounts.truncate(count);
        assert_eq!(
            Processor::process_close(&mut accounts, &escrow::id()),
            Err(ProgramError::NotEnoughAccountKeys)
        );
    }
}

#[test]
fn close_twice_is_refused() {
    let after_settle = settled(1000, 50);
    let mut accounts = close_accounts(after_settle[4].clone());
    Processor::process_close(&mut accounts, &escrow::id()).unwrap();
    assert_eq!(
        Processor::process_close(&mut accounts, &escrow::id()),
        Err(ProgramError::InvalidAccountData)
    );
}

#[test]
fn close_into_the_escrow_account_itself_leaves_it_empty() {
    let after_settle = settled(1000, 50);
    let mut accounts = close_accounts(after_settle[4].clone());
    accounts[2] = accounts[1].clone();
    Processor::process_close(&mut accounts, &escrow::id()).unwrap();
    assert_eq!(accounts[1].lamports, 0);
    assert_eq!(accounts[2].lamports, 0);
    assert_eq!(accounts[2].data, Vec::<u8>::new());
}

#[test]
fn process_refuses_bytes_that_name_no_operation() {
    let mut accounts = init_accounts(1000);
    let before = accounts.clone();
    for bytes in [vec![], vec![3u8], vec![0u8, 1, 2], vec![1u8, 0, 0, 0, 0, 0, 0, 0], vec![255u8; 9]] {
        assert_eq!(
            Processor::process(&escrow::id(), &mut accounts, &bytes),
            Err(escrow_error(EscrowError::InvalidInstruction))
        );
    }
    assert_eq!(accounts, before);
}

#[test]
fn custody_address_is_the_hosts_derivation() {
    for program in [escrow::id(), key(1), key(200)] {
        let (address, bump) = find_custody_address(&program).unwrap();
        let (theirs, their_bump) = HostKey::find_program_address(&[b"escrow"], &host_key(&program));
        assert_eq!(host_key(&address), theirs);
        assert_eq!(bump, their_bump);
        assert!(address != program);
    }
}
