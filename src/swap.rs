//! The two-party swap: the opener parks an asset in a holding account
//! controlled by a derived authority and names what it wants in return; a taker
//! who pays exactly that receives the parked asset, and the escrow closes.
use crate::address::{derive_address, derived, SeedSet};
use crate::error::EscrowError;
use crate::instruction::SwapInstruction;
use crate::key::Key;
use crate::logger::{lemma_log_entry_round_trip, lemma_log_sequence_advances, logged, LogEntry, LoggerState, MessageData};
use crate::settlement::{planned, AccountView, Call, DerivedAuthority, LogAccounts, Signer};
use crate::state::Escrow;
use crate::token::{token_account_decoded, token_program_id, token_program_key, TokenAccount};
use crate::vault::log_accounts;
use vstd::prelude::*;

verus! {

/// What the host supplies besides the accounts.
#[derive(Clone, Copy, Debug, PartialEq, Eq, Structural)]
pub struct SwapEnv {
    /// The current time, for the audit entry.
    pub timestamp: u64,
    /// The minimum balance for permanent retention of the escrow account, at
    /// its data length.
    pub escrow_rent: u64,
}

/// The swap processor.
pub struct EscrowProcessor;

/// Opening an escrow that expects `amount`, with accounts: opener (signer),
/// holding account, opener's destination account, escrow record, rent,
/// asset-transfer program, audit program, audit counter, audit record, audit
/// payer, system program. The destination must belong to the asset-transfer
/// program, the record must be retained permanently and not yet initialized,
/// and the asset-transfer program account must be that program.
/// The record is written, control of the holding account passes to the
/// derived authority, and the opening is logged.
pub open spec fn init_plan(program_id: Key, a: Seq<AccountView>, amount: u64, env: SwapEnv) -> Result<
    Seq<Call>,
    EscrowError,
> {
    if a.len() < 1 {
        Err(EscrowError::NotEnoughAccountKeys)
    } else if !a[0].is_signer {
        Err(EscrowError::MissingSignature)
    } else if a.len() < 3 {
        Err(EscrowError::NotEnoughAccountKeys)
    } else if a[2].owner != token_program_key() {
        Err(EscrowError::IncorrectProgramOwner)
    } else if a.len() < 5 {
        Err(EscrowError::NotEnoughAccountKeys)
    } else if a[3].lamports < env.escrow_rent {
        Err(EscrowError::NotRentExempt)
    } else {
        match Escrow::decoded_unchecked(a[3].data@) {
            Err(e) => Err(e),
            Ok(existing) => if existing.is_initialized {
                Err(EscrowError::AlreadyInitialized)
            } else {
                match derived(SeedSet::Escrow, program_id) {
                    None => Err(EscrowError::InvalidSeeds),
                    Some((pda, _)) => if a.len() < 6 {
                        Err(EscrowError::NotEnoughAccountKeys)
                    } else if a[5].key != token_program_key() {
                        Err(EscrowError::IncorrectProgramOwner)
                    } else if a.len() < 8 {
                        Err(EscrowError::NotEnoughAccountKeys)
                    } else if a[7].owner != a[6].key {
                        Err(EscrowError::IncorrectProgramOwner)
                    } else if a.len() < 11 {
                        Err(EscrowError::NotEnoughAccountKeys)
                    } else {
                        Ok(
                            seq![
                                Call::WriteSwapRecord {
                                    account: a[3].key,
                                    escrow: Escrow {
                                        is_initialized: true,
                                        initializer_pubkey: a[0].key,
                                        temp_token_account_pubkey: a[1].key,
                                        initializer_token_to_receive_account_pubkey: a[2].key,
                                        expected_amount: amount,
                                    },
                                },
                                Call::SetAuthority { account: a[1].key, current: a[0].key, new_authority: pda },
                                Call::Log {
                                    accounts: log_accounts(a, 6),
                                    entry: LogEntry {
                                        from: a[0].key,
                                        to: a[2].key,
                                        amount,
                                        timestamp: env.timestamp,
                                    },
                                },
                            ],
                        )
                    },
                }
            },
        }
    }
}

/// The checks of an exchange that come before its amount is compared: the
/// taker signed, and the holding account decodes. Gives the holding account.
pub open spec fn exchange_holding(a: Seq<AccountView>) -> Result<TokenAccount, EscrowError> {
    if a.len() < 1 {
        Err(EscrowError::NotEnoughAccountKeys)
    } else if !a[0].is_signer {
        Err(EscrowError::MissingSignature)
    } else if a.len() < 4 {
        Err(EscrowError::NotEnoughAccountKeys)
    } else {
        token_account_decoded(a[3].data@)
    }
}

/// The calls of an exchange whose checks all passed.
pub open spec fn exchange_calls(
    a: Seq<AccountView>,
    expected: u64,
    held: u64,
    authority: DerivedAuthority,
    env: SwapEnv,
) -> Seq<Call> {
    seq![
        Call::Transfer {
            source: a[1].key,
            destination: a[5].key,
            authority: Signer::Key(a[0].key),
            amount: expected,
        },
        Call::Transfer {
            source: a[3].key,
            destination: a[2].key,
            authority: Signer::Derived(authority),
            amount: held,
        },
        Call::CloseAccount { account: a[3].key, destination: a[4].key, authority: Signer::Derived(authority) },
        Call::DrainLamports { from: a[6].key, to: a[4].key, amount: a[6].lamports },
        Call::Log {
            accounts: log_accounts(a, 9),
            entry: LogEntry { from: a[3].key, to: a[2].key, amount: held, timestamp: env.timestamp },
        },
    ]
}

/// Taking an escrow, expecting `amount` in the holding account, with accounts:
/// taker (signer), taker's paying account, taker's destination, holding
/// account, opener, opener's destination, escrow record, asset-transfer
/// program, derived authority, audit program, audit counter, audit record,
/// audit payer, system program. The amount must be the holding balance; the
/// record must name the holding account, the opener and the opener's
/// destination; the asset-transfer program account must be that program and
/// the authority the address derived from the escrow seed. Then: the taker pays the opener the expected amount; the holding
/// balance goes to the taker under the derived authority; the holding account
/// closes to the opener; the record's lamports go to the opener; the exchange
/// is logged.
pub open spec fn exchange_plan(program_id: Key, a: Seq<AccountView>, amount: u64, env: SwapEnv) -> Result<
    Seq<Call>,
    EscrowError,
> {
    match exchange_holding(a) {
        Err(e) => Err(e),
        Ok(holding) => if amount != holding.amount {
            Err(EscrowError::ExpectedAmountMismatch)
        } else if a.len() < 7 {
            Err(EscrowError::NotEnoughAccountKeys)
        } else {
            match Escrow::decoded(a[6].data@) {
                Err(e) => Err(e),
                Ok(escrow) => if escrow.temp_token_account_pubkey != a[3].key
                    || escrow.initializer_pubkey != a[4].key
                    || escrow.initializer_token_to_receive_account_pubkey != a[5].key {
                    Err(EscrowError::InvalidAccountData)
                } else if a.len() < 9 {
                    Err(EscrowError::NotEnoughAccountKeys)
                } else if a[7].key != token_program_key() {
                    Err(EscrowError::IncorrectProgramOwner)
                } else {
                    match derived(SeedSet::Escrow, program_id) {
                        None => Err(EscrowError::InvalidSeeds),
                        Some((pda, nonce)) => if pda != a[8].key {
                            Err(EscrowError::InvalidAccountData)
                        } else if a[4].lamports + a[3].lamports + a[6].lamports > u64::MAX {
                            Err(EscrowError::AmountOverflow)
                        } else if a.len() < 11 {
                            Err(EscrowError::NotEnoughAccountKeys)
                        } else if a[10].owner != a[9].key {
                            Err(EscrowError::IncorrectProgramOwner)
                        } else if a.len() < 14 {
                            Err(EscrowError::NotEnoughAccountKeys)
                        } else {
                            Ok(
                                exchange_calls(
                                    a,
                                    escrow.expected_amount,
                                    holding.amount,
                                    DerivedAuthority { address: pda, seeds: SeedSet::Escrow, nonce },
                                    env,
                                ),
                            )
                        },
                    }
                },
            }
        },
    }
}

/// What a swap instruction plans.
pub open spec fn swap_plan(program_id: Key, a: Seq<AccountView>, data: Seq<u8>, env: SwapEnv) -> Result<
    Seq<Call>,
    EscrowError,
> {
    match SwapInstruction::decoded(data) {
        Err(e) => Err(e),
        Ok(SwapInstruction::InitEscrow { amount }) => init_plan(program_id, a, amount, env),
        Ok(SwapInstruction::Exchange { amount }) => exchange_plan(program_id, a, amount, env),
    }
}

impl EscrowProcessor {
    /// Decodes a swap instruction and plans it.
    pub fn process(
        program_id: &Key,
        accounts: &Vec<AccountView>,
        instruction_data: &[u8],
        env: SwapEnv,
    ) -> (r: Result<Vec<Call>, EscrowError>)
        ensures
            planned(r) == swap_plan(*program_id, accounts@, instruction_data@, env),
    {
        match SwapInstruction::unpack(instruction_data) {
            Err(e) => Err(e),
            Ok(SwapInstruction::InitEscrow { amount }) => Self::process_init_escrow(
                accounts,
                amount,
                program_id,
                env,
            ),
            Ok(SwapInstruction::Exchange { amount }) => Self::process_exchange(
                accounts,
                amount,
                program_id,
                env,
            ),
        }
    }

    /// Plans the opening of an escrow that expects `amount`.
    pub fn process_init_escrow(
        accounts: &Vec<AccountView>,
        amount: u64,
        program_id: &Key,
        env: SwapEnv,
    ) -> (r: Result<Vec<Call>, EscrowError>)
        ensures
            planned(r) == init_plan(*program_id, accounts@, amount, env),
    {
        if accounts.len() < 1 {
            return Err(EscrowError::NotEnoughAccountKeys);
        }
        let initializer = &accounts[0];
        if !initializer.is_signer {
            return Err(EscrowError::MissingSignature);
        }
        if accounts.len() < 3 {
            return Err(EscrowError::NotEnoughAccountKeys);
        }
        let temp_token_account = &accounts[1];
        let token_to_receive_account = &accounts[2];
        if token_to_receive_account.owner != token_program_id() {
            return Err(EscrowError::IncorrectProgramOwner);
        }
        if accounts.len() < 5 {
            return Err(EscrowError::NotEnoughAccountKeys);
        }
        let escrow_account = &accounts[3];
        if escrow_account.lamports < env.escrow_rent {
            return Err(EscrowError::NotRentExempt);
        }
        let existing = match Escrow::unpack_unchecked(escrow_account.data.as_slice()) {
            Ok(e) => e,
            Err(e) => return Err(e),
        };
        if existing.is_initialized() {
            return Err(EscrowError::AlreadyInitialized);
        }
        let escrow = Escrow {
            is_initialized: true,
            initializer_pubkey: initializer.key,
            temp_token_account_pubkey: temp_token_account.key,
            initializer_token_to_receive_account_pubkey: token_to_receive_account.key,
            expected_amount: amount,
        };
        let (pda, _nonce) = match derive_address(SeedSet::Escrow, program_id) {
            Some(p) => p,
            None => return Err(EscrowError::InvalidSeeds),
        };
        if accounts.len() < 6 {
            return Err(EscrowError::NotEnoughAccountKeys);
        }
        if accounts[5].key != token_program_id() {
            return Err(EscrowError::IncorrectProgramOwner);
        }
        if accounts.len() < 8 {
            return Err(EscrowError::NotEnoughAccountKeys);
        }
        if accounts[7].owner != accounts[6].key {
            return Err(EscrowError::IncorrectProgramOwner);
        }
        if accounts.len() < 11 {
            return Err(EscrowError::NotEnoughAccountKeys);
        }
        let write = Call::WriteSwapRecord { account: escrow_account.key, escrow };
        let hand_over = Call::SetAuthority {
            account: temp_token_account.key,
            current: initializer.key,
            new_authority: pda,
        };
        let log = Call::Log {
            accounts: LogAccounts {
                program: accounts[6].key,
                state: accounts[7].key,
                message: accounts[8].key,
                payer: accounts[9].key,
                system_program: accounts[10].key,
            },
            entry: LogEntry {
                from: initializer.key,
                to: token_to_receive_account.key,
                amount,
                timestamp: env.timestamp,
            },
        };
        let mut calls: Vec<Call> = Vec::new();
        calls.push(write);
        calls.push(hand_over);
        calls.push(log);
        assert(calls@ =~= seq![write, hand_over, log]);
        Ok(calls)
    }

    /// Plans taking an escrow, expecting `amount_expected_by_taker` in the
    /// holding account.
    pub fn process_exchange(
        accounts: &Vec<AccountView>,
        amount_expected_by_taker: u64,
        program_id: &Key,
        env: SwapEnv,
    ) -> (r: Result<Vec<Call>, EscrowError>)
        ensures
            planned(r) == exchange_plan(*program_id, accounts@, amount_expected_by_taker, env),
    {
        if accounts.len() < 1 {
            return Err(EscrowError::NotEnoughAccountKeys);
        }
        let taker = &accounts[0];
        if !taker.is_signer {
            return Err(EscrowError::MissingSignature);
        }
        if accounts.len() < 4 {
            return Err(EscrowError::NotEnoughAccountKeys);
        }
        let takers_sending_token_account = &accounts[1];
        let takers_token_to_receive_account = &accounts[2];
        let pdas_temp_token_account = &accounts[3];
        let holding = match TokenAccount::unpack(pdas_temp_token_account.data.as_slice()) {
            Ok(t) => t,
            Err(e) => return Err(e),
        };
        if amount_expected_by_taker != holding.amount {
            return Err(EscrowError::ExpectedAmountMismatch);
        }
        if accounts.len() < 7 {
            return Err(EscrowError::NotEnoughAccountKeys);
        }
        let initializers_main_account = &accounts[4];
        let initializers_token_to_receive_account = &accounts[5];
        let escrow_account = &accounts[6];
        let escrow = match Escrow::unpack(escrow_account.data.as_slice()) {
            Ok(e) => e,
            Err(e) => return Err(e),
        };
        if escrow.temp_token_account_pubkey != pdas_temp_token_account.key
            || escrow.initializer_pubkey != initializers_main_account.key
            || escrow.initializer_token_to_receive_account_pubkey
            != initializers_token_to_receive_account.key {
            return Err(EscrowError::InvalidAccountData);
        }
        if accounts.len() < 9 {
            return Err(EscrowError::NotEnoughAccountKeys);
        }
        if accounts[7].key != token_program_id() {
            return Err(EscrowError::IncorrectProgramOwner);
        }
        let (pda, nonce) = match derive_address(SeedSet::Escrow, program_id) {
            Some(p) => p,
            None => return Err(EscrowError::InvalidSeeds),
        };
        if pda != accounts[8].key {
            return Err(EscrowError::InvalidAccountData);
        }
        let authority = DerivedAuthority { address: pda, seeds: SeedSet::Escrow, nonce };
        let refund = match initializers_main_account.lamports.checked_add(pdas_temp_token_account.lamports) {
            Some(v) => v,
            None => return Err(EscrowError::AmountOverflow),
        };
        if refund.checked_add(escrow_account.lamports).is_none() {
            return Err(EscrowError::AmountOverflow);
        }
        if accounts.len() < 11 {
            return Err(EscrowError::NotEnoughAccountKeys);
        }
        if accounts[10].owner != accounts[9].key {
            return Err(EscrowError::IncorrectProgramOwner);
        }
        if accounts.len() < 14 {
            return Err(EscrowError::NotEnoughAccountKeys);
        }
        let pay_initializer = Call::Transfer {
            source: takers_sending_token_account.key,
            destination: initializers_token_to_receive_account.key,
            authority: Signer::Key(taker.key),
            amount: escrow.expected_amount,
        };
        let pay_taker = Call::Transfer {
            source: pdas_temp_token_account.key,
            destination: takers_token_to_receive_account.key,
            authority: Signer::Derived(authority),
            amount: holding.amount,
        };
        let close = Call::CloseAccount {
            account: pdas_temp_token_account.key,
            destination: initializers_main_account.key,
            authority: Signer::Derived(authority),
        };
        let retire = Call::DrainLamports {
            from: escrow_account.key,
            to: initializers_main_account.key,
            amount: escrow_account.lamports,
        };
        let log = Call::Log {
            accounts: LogAccounts {
                program: accounts[9].key,
                state: accounts[10].key,
                message: accounts[11].key,
                payer: accounts[12].key,
                system_program: accounts[13].key,
            },
            entry: LogEntry {
                from: pdas_temp_token_account.key,
                to: takers_token_to_receive_account.key,
                amount: holding.amount,
                timestamp: env.timestamp,
            },
        };
        let mut calls: Vec<Call> = Vec::new();
        calls.push(pay_initializer);
        calls.push(pay_taker);
        calls.push(close);
        calls.push(retire);
        calls.push(log);
        assert(calls@ =~= seq![pay_initializer, pay_taker, close, retire, log]);
        Ok(calls)
    }
}

/// An escrow that opens is initialized, records the amount the opener asked
/// for, and hands control of the holding account to the address derived from
/// the escrow seed, never to a signer's key.
pub proof fn lemma_init_escrow_hands_over(program_id: Key, a: Seq<AccountView>, amount: u64, env: SwapEnv)
    requires
        init_plan(program_id, a, amount, env) is Ok,
    ensures
        ({
            let calls = init_plan(program_id, a, amount, env)->Ok_0;
            &&& calls[0] == Call::WriteSwapRecord {
                account: a[3].key,
                escrow: Escrow {
                    is_initialized: true,
                    initializer_pubkey: a[0].key,
                    temp_token_account_pubkey: a[1].key,
                    initializer_token_to_receive_account_pubkey: a[2].key,
                    expected_amount: amount,
                },
            }
            &&& derived(SeedSet::Escrow, program_id) is Some
            &&& calls[1] == Call::SetAuthority {
                account: a[1].key,
                current: a[0].key,
                new_authority: derived(SeedSet::Escrow, program_id)->Some_0.0,
            }
        }),
{
}

/// Once the taker has signed and the holding account decodes, an exchange
/// whose amount is not the holding balance is refused with
/// `ExpectedAmountMismatch`, and plans no call.
pub proof fn lemma_exchange_amount_must_match(program_id: Key, a: Seq<AccountView>, amount: u64, env: SwapEnv)
    requires
        exchange_holding(a) is Ok,
        amount != exchange_holding(a)->Ok_0.amount,
    ensures
        exchange_plan(program_id, a, amount, env) == Err::<Seq<Call>, EscrowError>(
            EscrowError::ExpectedAmountMismatch,
        ),
{
}

/// An exchange whose accounts are consistent and whose amount is the holding
/// balance settles in full: the opener's destination receives the expected
/// amount from the taker, the taker receives the whole holding balance under
/// the derived authority, the holding account closes to the opener, the
/// record's lamports all go to the opener, and exactly one audit entry, for the
/// holding balance, is handed to the log.
pub proof fn lemma_exchange_settles(
    program_id: Key,
    a: Seq<AccountView>,
    amount: u64,
    env: SwapEnv,
    escrow: Escrow,
    nonce: u8,
)
    requires
        a.len() >= 14,
        a[0].is_signer,
        token_account_decoded(a[3].data@) is Ok,
        amount == token_account_decoded(a[3].data@)->Ok_0.amount,
        Escrow::decoded(a[6].data@) == Ok::<Escrow, EscrowError>(escrow),
        escrow.temp_token_account_pubkey == a[3].key,
        escrow.initializer_pubkey == a[4].key,
        escrow.initializer_token_to_receive_account_pubkey == a[5].key,
        a[7].key == token_program_key(),
        derived(SeedSet::Escrow, program_id) == Some((a[8].key, nonce)),
        a[4].lamports + a[3].lamports + a[6].lamports <= u64::MAX,
        a[10].owner == a[9].key,
    ensures
        ({
            let authority = Signer::Derived(
                DerivedAuthority { address: a[8].key, seeds: SeedSet::Escrow, nonce },
            );
            let calls = exchange_plan(program_id, a, amount, env)->Ok_0;
            &&& exchange_plan(program_id, a, amount, env) is Ok
            &&& calls.len() == 5
            &&& calls[0] == Call::Transfer {
                source: a[1].key,
                destination: a[5].key,
                authority: Signer::Key(a[0].key),
                amount: escrow.expected_amount,
            }
            &&& calls[1] == Call::Transfer {
                source: a[3].key,
                destination: a[2].key,
                authority,
                amount,
            }
            &&& calls[2] == Call::CloseAccount { account: a[3].key, destination: a[4].key, authority }
            &&& calls[3] == Call::DrainLamports { from: a[6].key, to: a[4].key, amount: a[6].lamports }
            &&& forall|i: int| 0 <= i < 4 ==> !(#[trigger] calls[i] is Log)
            &&& calls[4] == Call::Log {
                accounts: log_accounts(a, 9),
                entry: LogEntry { from: a[3].key, to: a[2].key, amount, timestamp: env.timestamp },
            }
        }),
{
}

/// The one audit entry of a settled exchange, handed to the audit log as its
/// bytes, is stored with the counter's next sequence number and the holding
/// balance as its amount.
pub proof fn lemma_exchange_logged_once(
    program_id: Key,
    a: Seq<AccountView>,
    amount: u64,
    env: SwapEnv,
    log_program: Key,
    log: Seq<AccountView>,
    rent: u64,
)
    requires
        exchange_plan(program_id, a, amount, env) is Ok,
        logged(
            log_program,
            log,
            LogEntry { from: a[3].key, to: a[2].key, amount, timestamp: env.timestamp }.encoding(),
            rent,
        ) is Ok,
    ensures
        ({
            let calls = exchange_plan(program_id, a, amount, env)->Ok_0;
            let entry = LogEntry { from: a[3].key, to: a[2].key, amount, timestamp: env.timestamp };
            let stored = logged(log_program, log, entry.encoding(), rent)->Ok_0;
            let before = LoggerState::decoded(log[0].data@)->Ok_0.sequence;
            &&& calls.len() == 5
            &&& forall|i: int| 0 <= i < 4 ==> !(#[trigger] calls[i] is Log)
            &&& calls[4] == Call::Log { accounts: log_accounts(a, 9), entry }
            &&& stored[0] == Call::WriteLoggerState {
                account: log[0].key,
                state: LoggerState { sequence: (before + 1) as u64 },
            }
            &&& stored.last() == Call::WriteMessage {
                account: log[1].key,
                message: MessageData {
                    from_pubkey: a[3].key,
                    to_pubkey: a[2].key,
                    amount,
                    timestamp: env.timestamp,
                    sequence: (before + 1) as u64,
                },
            }
        }),
{
    let entry = LogEntry { from: a[3].key, to: a[2].key, amount, timestamp: env.timestamp };
    lemma_log_entry_round_trip(entry);
    lemma_log_sequence_advances(log_program, log, entry.encoding(), rent);
}

} // verus!
