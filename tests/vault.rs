use escrow_contract::address::SeedSet;
use escrow_contract::error::EscrowError;
use escrow_contract::key::Key;
use escrow_contract::logger::{process_instruction, LogEntry, LoggerState};
use escrow_contract::settlement::{AccountView, Call, DerivedAuthority, Signer};
use escrow_contract::state::EscrowState;
use escrow_contract::vault::{EscrowProcessor, VaultEnv};
use solana_program::program_pack::Pack;
use solana_program::pubkey::Pubkey;

const PROGRAM: u8 = 210;
const LOGGER: u8 = 211;
const MINT: u8 = 50;

fn key(n: u8) -> Key {
    Key::from_array(&[n; 32])
}

fn pda(seeds: &[&[u8]], program: u8) -> (Key, u8) {
    let (a, n) = Pubkey::find_program_address(seeds, &Pubkey::new_from_array([program; 32]));
    (Key::from_array(&a.to_bytes()), n)
}

fn record_pda() -> (Key, u8) {
    pda(&[b"escrow", &[MINT; 32]], PROGRAM)
}

fn vault_pda() -> (Key, u8) {
    pda(&[b"vault", &[MINT; 32]], PROGRAM)
}

fn token() -> Key {
    Key::from_array(&spl_token::id().to_bytes())
}

fn account(k: Key, owner: Key, is_signer: bool, lamports: u64, data: Vec<u8>) -> AccountView {
    AccountView { key: k, owner, is_signer, is_writable: true, lamports, data }
}

fn plain(n: u8) -> AccountView {
    account(key(n), key(0), false, 1, vec![])
}

fn token_data(mint: u8, owner: Key, amount: u64) -> Vec<u8> {
    let a = spl_token::state::Account {
        mint: Pubkey::new_from_array([mint; 32]),
        owner: Pubkey::new_from_array(owner.to_bytes().try_into().unwrap()),
        amount,
        state: spl_token::state::AccountState::Initialized,
        ..Default::default()
    };
    let mut data = vec![0u8; 165];
    a.pack_into_slice(&mut data);
    data
}

fn ix(tag: u8, amount: u64) -> Vec<u8> {
    let mut d = vec![tag];
    d.extend_from_slice(&amount.to_le_bytes());
    d
}

fn env() -> VaultEnv {
    VaultEnv { timestamp: 1_700_000_000, record_rent: 1_400_000, token_account_rent: 2_039_280 }
}

fn fresh_deposit_accounts() -> Vec<AccountView> {
    vec![
        account(key(1), key(0), true, 10_000_000, vec![]),
        account(key(2), token(), false, 2_039_280, token_data(MINT, key(1), 10_000)),
        account(record_pda().0, key(0), false, 0, vec![]),
        account(vault_pda().0, key(0), false, 0, vec![]),
        plain(4),
        account(token(), key(0), false, 1, vec![]),
        plain(6),
        plain(LOGGER),
        account(key(8), key(LOGGER), false, 1, vec![]),
        plain(9),
        plain(10),
        plain(11),
        plain(MINT),
    ]
}

fn stored_record(accounts: &mut Vec<AccountView>, total: u64) {
    let record = EscrowState { is_initialized: true, token_mint: key(MINT), escrow_vault_account: vault_pda().0, total_deposited: total };
    accounts[2].lamports = 1_400_000;
    accounts[2].data = record.pack();
    accounts[3].lamports = 2_039_280;
    accounts[3].data = token_data(MINT, vault_pda().0, total);
}

fn withdraw_accounts(total: u64) -> Vec<AccountView> {
    let mut d = fresh_deposit_accounts();
    stored_record(&mut d, total);
    vec![
        d[0].clone(),
        d[1].clone(),
        d[2].clone(),
        d[3].clone(),
        account(token(), key(0), false, 1, vec![]),
        plain(LOGGER),
        account(key(8), key(LOGGER), false, 1, vec![]),
        account(vault_pda().0, key(0), false, 0, vec![]),
        plain(9),
        plain(10),
        plain(11),
    ]
}

fn written_total(calls: &[Call]) -> u64 {
    calls
        .iter()
        .find_map(|c| match c {
            Call::WriteVaultRecord { record, .. } => Some(record.total_deposited),
            _ => None,
        })
        .unwrap()
}

fn log_entry(calls: &[Call]) -> LogEntry {
    calls
        .iter()
        .find_map(|c| match c {
            Call::Log { entry, .. } => Some(*entry),
            _ => None,
        })
        .unwrap()
}

fn log(entry: &LogEntry, before: u64) -> u64 {
    let (message, _) = pda(&[b"logger", &(before + 1).to_le_bytes()], LOGGER);
    let accounts = vec![
        account(key(8), key(LOGGER), false, 1, LoggerState { sequence: before }.pack()),
        account(message, key(0), false, 0, vec![]),
        plain(9),
        plain(11),
    ];
    let calls = process_instruction(&key(LOGGER), &accounts, &entry.pack(), 1_500_000).unwrap();
    match calls[0] {
        Call::WriteLoggerState { state, .. } => state.sequence,
        _ => panic!("the counter is not stored"),
    }
}

#[test]
fn first_deposit_creates_record_and_vault() {
    let a = fresh_deposit_accounts();
    let calls = EscrowProcessor::process(&key(PROGRAM), &a, &ix(0, 500), env()).unwrap();
    let (record, record_nonce) = record_pda();
    let (vault, vault_nonce) = vault_pda();
    assert_eq!(calls.len(), 6);
    assert_eq!(
        calls[0],
        Call::CreateAccount {
            payer: key(1),
            account: record,
            lamports: 1_400_000,
            space: 73,
            owner: key(PROGRAM),
            signer: DerivedAuthority { address: record, seeds: SeedSet::EscrowOf(key(MINT)), nonce: record_nonce },
        }
    );
    assert_eq!(
        calls[1],
        Call::CreateAccount {
            payer: key(1),
            account: vault,
            lamports: 2_039_280,
            space: 165,
            owner: token(),
            signer: DerivedAuthority { address: vault, seeds: SeedSet::VaultOf(key(MINT)), nonce: vault_nonce },
        }
    );
    assert_eq!(calls[2], Call::InitializeAccount { account: vault, mint: key(MINT), owner: vault });
    assert_eq!(calls[3], Call::Transfer { source: key(2), destination: vault, authority: Signer::Key(key(1)), amount: 500 });
    assert_eq!(
        calls[4],
        Call::WriteVaultRecord {
            account: record,
            record: EscrowState { is_initialized: true, token_mint: key(MINT), escrow_vault_account: vault, total_deposited: 500 },
        }
    );
    assert_eq!(log_entry(&calls), LogEntry { from: key(1), to: vault, amount: 500, timestamp: 1_700_000_000 });
}

#[test]
fn two_deposits_accumulate_with_increasing_sequence() {
    let mut a = fresh_deposit_accounts();
    let first = EscrowProcessor::process(&key(PROGRAM), &a, &ix(0, 500), env()).unwrap();
    assert_eq!(written_total(&first), 500);
    stored_record(&mut a, 500);
    let second = EscrowProcessor::process(&key(PROGRAM), &a, &ix(0, 300), env()).unwrap();
    assert_eq!(second.len(), 3);
    assert_eq!(written_total(&second), 800);
    let s1 = log(&log_entry(&first), 0);
    let s2 = log(&log_entry(&second), s1);
    assert_eq!(s1, 1);
    assert_eq!(s2, 2);
    assert!(s1 < s2);
}

#[test]
fn deposit_overflow_is_refused() {
    let mut a = fresh_deposit_accounts();
    stored_record(&mut a, u64::MAX - 10);
    assert_eq!(EscrowProcessor::process_deposit(&a, 11, &key(PROGRAM), env()), Err(EscrowError::AmountOverflow));
    let calls = EscrowProcessor::process_deposit(&a, 10, &key(PROGRAM), env()).unwrap();
    assert_eq!(written_total(&calls), u64::MAX);
}

#[test]
fn deposit_refusals() {
    let mut a = fresh_deposit_accounts();
    a[0].is_signer = false;
    assert_eq!(EscrowProcessor::process_deposit(&a, 1, &key(PROGRAM), env()), Err(EscrowError::MissingSignature));
    let mut a = fresh_deposit_accounts();
    a[1].owner = key(99);
    assert_eq!(EscrowProcessor::process_deposit(&a, 1, &key(PROGRAM), env()), Err(EscrowError::IncorrectProgramOwner));
    let mut a = fresh_deposit_accounts();
    a[5].key = key(91);
    assert_eq!(EscrowProcessor::process_deposit(&a, 1, &key(PROGRAM), env()), Err(EscrowError::IncorrectProgramOwner));
    let mut a = fresh_deposit_accounts();
    a[2].key = key(98);
    assert_eq!(EscrowProcessor::process_deposit(&a, 1, &key(PROGRAM), env()), Err(EscrowError::InvalidAccountData));
    let mut a = fresh_deposit_accounts();
    a[12].key = key(51);
    assert_eq!(EscrowProcessor::process_deposit(&a, 1, &key(PROGRAM), env()), Err(EscrowError::InvalidAccountData));
    let mut a = fresh_deposit_accounts();
    stored_record(&mut a, 5);
    a[3].data = token_data(MINT + 1, vault_pda().0, 5);
    assert_eq!(EscrowProcessor::process_deposit(&a, 1, &key(PROGRAM), env()), Err(EscrowError::MintMismatch));
    let a = fresh_deposit_accounts();
    assert_eq!(EscrowProcessor::process_deposit(&a[..12].to_vec(), 1, &key(PROGRAM), env()), Err(EscrowError::NotEnoughAccountKeys));
}

#[test]
fn withdraw_pays_out_under_vault_authority() {
    let a = withdraw_accounts(800);
    let calls = EscrowProcessor::process(&key(PROGRAM), &a, &ix(1, 300), env()).unwrap();
    let (vault, nonce) = vault_pda();
    assert_eq!(calls.len(), 3);
    assert_eq!(
        calls[0],
        Call::Transfer {
            source: vault,
            destination: key(2),
            authority: Signer::Derived(DerivedAuthority { address: vault, seeds: SeedSet::VaultOf(key(MINT)), nonce }),
            amount: 300,
        }
    );
    assert_eq!(written_total(&calls), 500);
    assert_eq!(log_entry(&calls), LogEntry { from: vault, to: key(1), amount: 300, timestamp: 1_700_000_000 });
}

#[test]
fn withdraw_more_than_deposited_is_refused() {
    let a = withdraw_accounts(800);
    assert_eq!(EscrowProcessor::process(&key(PROGRAM), &a, &ix(1, 801), env()), Err(EscrowError::InsufficientAmount));
    assert!(EscrowProcessor::process_withdraw(&a, 800, &key(PROGRAM), env()).is_ok());
}

#[test]
fn withdraw_refusals() {
    let mut a = withdraw_accounts(800);
    a[7].key = key(97);
    assert_eq!(EscrowProcessor::process_withdraw(&a, 1, &key(PROGRAM), env()), Err(EscrowError::InvalidSeeds));
    let mut a = withdraw_accounts(800);
    a[4].key = key(90);
    assert_eq!(EscrowProcessor::process_withdraw(&a, 1, &key(PROGRAM), env()), Err(EscrowError::IncorrectProgramOwner));
    let mut a = withdraw_accounts(800);
    a[3].key = key(96);
    assert_eq!(EscrowProcessor::process_withdraw(&a, 1, &key(PROGRAM), env()), Err(EscrowError::InvalidAccountData));
    let mut a = withdraw_accounts(800);
    a[2].data = vec![0u8; 73];
    assert_eq!(EscrowProcessor::process_withdraw(&a, 1, &key(PROGRAM), env()), Err(EscrowError::UninitializedAccount));
    let mut a = withdraw_accounts(800);
    a[3].data = token_data(MINT + 1, vault_pda().0, 800);
    assert_eq!(EscrowProcessor::process_withdraw(&a, 1, &key(PROGRAM), env()), Err(EscrowError::MintMismatch));
}

#[test]
fn logger_refusals() {
    let entry = LogEntry { from: key(1), to: key(2), amount: 3, timestamp: 4 };
    let (message, _) = pda(&[b"logger", &1u64.to_le_bytes()], LOGGER);
    let good = vec![
        account(key(8), key(LOGGER), false, 1, LoggerState { sequence: 0 }.pack()),
        account(message, key(0), false, 0, vec![]),
        plain(9),
        plain(11),
    ];
    assert_eq!(process_instruction(&key(LOGGER), &good, &entry.pack()[..79], 1), Err(EscrowError::InvalidInstructionData));
    assert_eq!(process_instruction(&key(LOGGER), &good[..3].to_vec(), &entry.pack(), 1), Err(EscrowError::NotEnoughAccountKeys));
    let mut a = good.clone();
    a[1].key = key(95);
    assert_eq!(process_instruction(&key(LOGGER), &a, &entry.pack(), 1), Err(EscrowError::InvalidArgument));
    let mut a = good.clone();
    a[0].is_writable = false;
    assert_eq!(process_instruction(&key(LOGGER), &a, &entry.pack(), 1), Err(EscrowError::InvalidAccountData));
    let mut a = good.clone();
    a[0].data = LoggerState { sequence: u64::MAX }.pack();
    assert_eq!(process_instruction(&key(LOGGER), &a, &entry.pack(), 1), Err(EscrowError::AmountOverflow));
    let mut a = good.clone();
    a[1].lamports = 5;
    a[1].data = vec![0u8; 88];
    assert_eq!(process_instruction(&key(LOGGER), &a, &entry.pack(), 1).map(|c| c.len()), Ok(2));
}
