use escrow_contract::address::SeedSet;
use escrow_contract::error::EscrowError;
use escrow_contract::key::Key;
use escrow_contract::logger::{process_instruction, LogEntry, LoggerState, MessageData};
use escrow_contract::settlement::{AccountView, Call, DerivedAuthority, Signer};
use escrow_contract::state::Escrow;
use escrow_contract::swap::{EscrowProcessor, SwapEnv};
use solana_program::program_pack::Pack;
use solana_program::pubkey::Pubkey;

const PROGRAM: u8 = 200;
const LOGGER: u8 = 201;

fn key(n: u8) -> Key {
    Key::from_array(&[n; 32])
}

fn pda(seeds: &[&[u8]], program: u8) -> (Key, u8) {
    let (a, n) = Pubkey::find_program_address(seeds, &Pubkey::new_from_array([program; 32]));
    (Key::from_array(&a.to_bytes()), n)
}

fn account(k: Key, owner: Key, is_signer: bool, lamports: u64, data: Vec<u8>) -> AccountView {
    AccountView { key: k, owner, is_signer, is_writable: true, lamports, data }
}

fn plain(n: u8) -> AccountView {
    account(key(n), key(0), false, 1, vec![])
}

fn token_data(mint: u8, owner: Key, amount: u64) -> Vec<u8> {
    let a = spl_token::state::Account {
        mint: Pubkey::new_from_array([mint; 32]),
        owner: Pubkey::new_from_array(owner.to_bytes().try_into().unwrap()),
        amount,
        state: spl_token::state::AccountState::Initialized,
        ..Default::default()
    };
    let mut data = vec![0u8; 165];
    a.pack_into_slice(&mut data);
    data
}

fn ix(tag: u8, amount: u64) -> Vec<u8> {
    let mut d = vec![tag];
    d.extend_from_slice(&amount.to_le_bytes());
    d
}

fn env() -> SwapEnv {
    SwapEnv { timestamp: 1_700_000_000, escrow_rent: 1_000_000 }
}

fn logger_accounts(sequence: u64) -> Vec<AccountView> {
    let (message, _) = pda(&[b"logger", &sequence.to_le_bytes()], LOGGER);
    vec![plain(LOGGER), account(key(8), key(LOGGER), false, 1, vec![]), account(message, key(0), false, 0, vec![]), plain(9), plain(10)]
}

fn init_accounts(escrow_lamports: u64, escrow_data: Vec<u8>) -> Vec<AccountView> {
    let token = Key::from_array(&spl_token::id().to_bytes());
    let mut a = vec![
        account(key(1), key(0), true, 10, vec![]),
        account(key(2), token, false, 2_039_280, vec![]),
        account(key(3), token, false, 2_039_280, vec![]),
        account(key(4), key(PROGRAM), false, escrow_lamports, escrow_data),
        plain(5),
        account(token, key(0), false, 1, vec![]),
    ];
    a.extend(logger_accounts(1));
    a
}

fn exchange_accounts(holding_amount: u64, record: &Escrow) -> Vec<AccountView> {
    let token = Key::from_array(&spl_token::id().to_bytes());
    let (authority, _) = pda(&[b"escrow"], PROGRAM);
    let mut a = vec![
        account(key(11), key(0), true, 10, vec![]),
        account(key(12), token, false, 2_039_280, vec![]),
        account(key(13), token, false, 2_039_280, vec![]),
        account(key(2), token, false, 2_039_280, token_data(30, authority, holding_amount)),
        account(key(1), key(0), false, 5, vec![]),
        account(key(3), token, false, 2_039_280, vec![]),
        account(key(4), key(PROGRAM), false, 1_000_000, record.pack()),
        account(token, key(0), false, 1, vec![]),
        account(authority, key(0), false, 0, vec![]),
    ];
    a.extend(logger_accounts(42));
    a
}

fn opened(amount: u64) -> Escrow {
    Escrow {
        is_initialized: true,
        initializer_pubkey: key(1),
        temp_token_account_pubkey: key(2),
        initializer_token_to_receive_account_pubkey: key(3),
        expected_amount: amount,
    }
}

#[test]
fn init_escrow_records_and_hands_over_holding_account() {
    let accounts = init_accounts(1_000_000, vec![0u8; 105]);
    let calls = EscrowProcessor::process(&key(PROGRAM), &accounts, &ix(0, 1_000), env()).unwrap();
    let (authority, _) = pda(&[b"escrow"], PROGRAM);
    assert_eq!(calls.len(), 3);
    assert_eq!(calls[0], Call::WriteSwapRecord { account: key(4), escrow: opened(1_000) });
    assert_eq!(calls[1], Call::SetAuthority { account: key(2), current: key(1), new_authority: authority });
    assert_ne!(authority, key(1));
    match calls[2] {
        Call::Log { accounts, entry } => {
            assert_eq!(accounts.program, key(LOGGER));
            assert_eq!(entry, LogEntry { from: key(1), to: key(3), amount: 1_000, timestamp: 1_700_000_000 });
        }
        _ => panic!("the opening is not logged"),
    }
}

#[test]
fn init_escrow_refusals() {
    let mut a = init_accounts(1_000_000, vec![0u8; 105]);
    a[0].is_signer = false;
    assert_eq!(EscrowProcessor::process_init_escrow(&a, 1, &key(PROGRAM), env()), Err(EscrowError::MissingSignature));
    let mut a = init_accounts(1_000_000, vec![0u8; 105]);
    a[2].owner = key(77);
    assert_eq!(EscrowProcessor::process_init_escrow(&a, 1, &key(PROGRAM), env()), Err(EscrowError::IncorrectProgramOwner));
    let mut a = init_accounts(1_000_000, vec![0u8; 105]);
    a[5].key = key(92);
    assert_eq!(EscrowProcessor::process_init_escrow(&a, 1, &key(PROGRAM), env()), Err(EscrowError::IncorrectProgramOwner));
    let a = init_accounts(999_999, vec![0u8; 105]);
    assert_eq!(EscrowProcessor::process_init_escrow(&a, 1, &key(PROGRAM), env()), Err(EscrowError::NotRentExempt));
    let a = init_accounts(1_000_000, opened(5).pack());
    assert_eq!(EscrowProcessor::process_init_escrow(&a, 1, &key(PROGRAM), env()), Err(EscrowError::AlreadyInitialized));
    let a = init_accounts(1_000_000, vec![0u8; 100]);
    assert_eq!(EscrowProcessor::process_init_escrow(&a, 1, &key(PROGRAM), env()), Err(EscrowError::InvalidAccountData));
    let mut a = init_accounts(1_000_000, vec![0u8; 105]);
    a[7].owner = key(99);
    assert_eq!(EscrowProcessor::process_init_escrow(&a, 1, &key(PROGRAM), env()), Err(EscrowError::IncorrectProgramOwner));
    let a = init_accounts(1_000_000, vec![0u8; 105]);
    assert_eq!(EscrowProcessor::process_init_escrow(&a[..9].to_vec(), 1, &key(PROGRAM), env()), Err(EscrowError::NotEnoughAccountKeys));
    assert_eq!(EscrowProcessor::process(&key(PROGRAM), &a, &[7, 0, 0, 0, 0, 0, 0, 0, 0], env()), Err(EscrowError::InvalidInstruction));
}

#[test]
fn exchange_settles_and_logs_once() {
    let init = EscrowProcessor::process(&key(PROGRAM), &init_accounts(1_000_000, vec![0u8; 105]), &ix(0, 1_000), env()).unwrap();
    let record = match init[0] {
        Call::WriteSwapRecord { escrow, .. } => escrow,
        _ => panic!("the opening writes no record"),
    };
    assert_eq!(record.expected_amount, 1_000);
    let accounts = exchange_accounts(1_000, &record);
    let calls = EscrowProcessor::process(&key(PROGRAM), &accounts, &ix(1, 1_000), env()).unwrap();
    let (authority, nonce) = pda(&[b"escrow"], PROGRAM);
    let signer = Signer::Derived(DerivedAuthority { address: authority, seeds: SeedSet::Escrow, nonce });
    assert_eq!(calls.len(), 5);
    assert_eq!(calls[0], Call::Transfer { source: key(12), destination: key(3), authority: Signer::Key(key(11)), amount: 1_000 });
    assert_eq!(calls[1], Call::Transfer { source: key(2), destination: key(13), authority: signer, amount: 1_000 });
    assert_eq!(calls[2], Call::CloseAccount { account: key(2), destination: key(1), authority: signer });
    assert_eq!(calls[3], Call::DrainLamports { from: key(4), to: key(1), amount: 1_000_000 });
    let logs: Vec<&Call> = calls.iter().filter(|c| matches!(c, Call::Log { .. })).collect();
    assert_eq!(logs.len(), 1);
    let entry = match calls[4] {
        Call::Log { entry, .. } => entry,
        _ => panic!("the exchange is not logged"),
    };
    assert_eq!(entry.amount, 1_000);

    // The audit log, at sequence 41 before the call, stores record 42.
    let mut log_accounts = logger_accounts(42)[1..].to_vec();
    log_accounts[0].data = LoggerState { sequence: 41 }.pack();
    let written = process_instruction(&key(LOGGER), &log_accounts, &entry.pack(), 1_500_000).unwrap();
    assert_eq!(written[0], Call::WriteLoggerState { account: key(8), state: LoggerState { sequence: 42 } });
    assert_eq!(
        written[written.len() - 1],
        Call::WriteMessage {
            account: log_accounts[1].key,
            message: MessageData { from_pubkey: key(2), to_pubkey: key(13), amount: 1_000, timestamp: 1_700_000_000, sequence: 42 },
        }
    );
}

#[test]
fn exchange_amount_mismatch_is_refused() {
    let accounts = exchange_accounts(1_000, &opened(1_000));
    assert_eq!(EscrowProcessor::process(&key(PROGRAM), &accounts, &ix(1, 999), env()), Err(EscrowError::ExpectedAmountMismatch));
    assert_eq!(EscrowProcessor::process_exchange(&accounts, 1_001, &key(PROGRAM), env()), Err(EscrowError::ExpectedAmountMismatch));
}

#[test]
fn exchange_refuses_inconsistent_accounts() {
    let mut a = exchange_accounts(1_000, &opened(1_000));
    a[5].key = key(66);
    assert_eq!(EscrowProcessor::process_exchange(&a, 1_000, &key(PROGRAM), env()), Err(EscrowError::InvalidAccountData));
    let mut a = exchange_accounts(1_000, &opened(1_000));
    a[6].data = vec![0u8; 105];
    assert_eq!(EscrowProcessor::process_exchange(&a, 1_000, &key(PROGRAM), env()), Err(EscrowError::UninitializedAccount));
    let mut a = exchange_accounts(1_000, &opened(1_000));
    a[0].is_signer = false;
    assert_eq!(EscrowProcessor::process_exchange(&a, 1_000, &key(PROGRAM), env()), Err(EscrowError::MissingSignature));
    let mut a = exchange_accounts(1_000, &opened(1_000));
    a[4].lamports = u64::MAX;
    assert_eq!(EscrowProcessor::process_exchange(&a, 1_000, &key(PROGRAM), env()), Err(EscrowError::AmountOverflow));
    let mut a = exchange_accounts(1_000, &opened(1_000));
    a[8].key = key(94);
    assert_eq!(EscrowProcessor::process_exchange(&a, 1_000, &key(PROGRAM), env()), Err(EscrowError::InvalidAccountData));
    let mut a = exchange_accounts(1_000, &opened(1_000));
    a[7].key = key(93);
    assert_eq!(EscrowProcessor::process_exchange(&a, 1_000, &key(PROGRAM), env()), Err(EscrowError::IncorrectProgramOwner));
    let a = exchange_accounts(1_000, &opened(1_000));
    assert_eq!(EscrowProcessor::process_exchange(&a[..13].to_vec(), 1_000, &key(PROGRAM), env()), Err(EscrowError::NotEnoughAccountKeys));
}
