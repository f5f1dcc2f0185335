//! The deposit/withdraw vault: one record and one vault per asset type, both at
//! addresses derived from the asset type, the vault controlled by a derived
//! authority.
use crate::address::{derive_address, derived, SeedSet};
use crate::error::EscrowError;
use crate::instruction::EscrowInstruction;
use crate::key::Key;
use crate::logger::LogEntry;
use crate::settlement::{planned, AccountView, Call, DerivedAuthority, LogAccounts, Signer};
use crate::state::{EscrowState, VAULT_RECORD_LEN};
use crate::token::{token_account_decoded, token_program_id, token_program_key, TokenAccount, TOKEN_ACCOUNT_LEN};
use vstd::prelude::*;

verus! {

/// What the host supplies besides the accounts.
#[derive(Clone, Copy, Debug, PartialEq, Eq, Structural)]
pub struct VaultEnv {
    /// The current time, for the audit entry.
    pub timestamp: u64,
    /// The minimum balance of a vault record account.
    pub record_rent: u64,
    /// The minimum balance of an asset account.
    pub token_account_rent: u64,
}

/// The deposit/withdraw vault processor.
pub struct EscrowProcessor;

/// The record to deposit into, and the calls that create it: a fresh record
/// when the record account holds no lamports, else the stored one, which must
/// be of the same asset type.
pub open spec fn deposit_record(
    program_id: Key,
    a: Seq<AccountView>,
    mint: Key,
    escrow: DerivedAuthority,
    vault: Key,
    env: VaultEnv,
) -> Result<(EscrowState, Seq<Call>), EscrowError> {
    if a[2].lamports == 0 {
        Ok(
            (
                EscrowState {
                    is_initialized: true,
                    token_mint: mint,
                    escrow_vault_account: vault,
                    total_deposited: 0,
                },
                seq![
                    Call::CreateAccount {
                        payer: a[0].key,
                        account: a[2].key,
                        lamports: env.record_rent,
                        space: VAULT_RECORD_LEN as u64,
                        owner: program_id,
                        signer: escrow,
                    },
                ],
            ),
        )
    } else {
        match EscrowState::decoded(a[2].data@) {
            Err(e) => Err(e),
            Ok(r) => if r.token_mint != mint {
                Err(EscrowError::MintMismatch)
            } else {
                Ok((r, seq![]))
            },
        }
    }
}

/// The calls that create the vault when it holds no lamports; an existing
/// vault must hold the same asset type.
pub open spec fn deposit_vault(a: Seq<AccountView>, mint: Key, vault: DerivedAuthority, env: VaultEnv) -> Result<
    Seq<Call>,
    EscrowError,
> {
    if a[3].lamports == 0 {
        Ok(
            seq![
                Call::CreateAccount {
                    payer: a[0].key,
                    account: a[3].key,
                    lamports: env.token_account_rent,
                    space: TOKEN_ACCOUNT_LEN as u64,
                    owner: token_program_key(),
                    signer: vault,
                },
                Call::InitializeAccount { account: a[3].key, mint, owner: vault.address },
            ],
        )
    } else {
        match token_account_decoded(a[3].data@) {
            Err(e) => Err(e),
            Ok(t) => if t.mint != mint {
                Err(EscrowError::MintMismatch)
            } else {
                Ok(seq![])
            },
        }
    }
}

/// The checks of a deposit that come before its amount is added: signer,
/// account count, the depositor's asset account and the asset-transfer
/// program account, the derived record and vault
/// addresses, and the record and vault themselves. Gives the record to deposit
/// into and the calls that create what does not exist yet.
pub open spec fn deposit_accounts(program_id: Key, a: Seq<AccountView>, env: VaultEnv) -> Result<
    (EscrowState, Seq<Call>),
    EscrowError,
> {
    if a.len() < 1 {
        Err(EscrowError::NotEnoughAccountKeys)
    } else if !a[0].is_signer {
        Err(EscrowError::MissingSignature)
    } else if a.len() < 13 {
        Err(EscrowError::NotEnoughAccountKeys)
    } else if a[1].owner != token_program_key() || a[5].key != token_program_key() {
        Err(EscrowError::IncorrectProgramOwner)
    } else {
        let mint = a[12].key;
        match token_account_decoded(a[1].data@) {
            Err(e) => Err(e),
            Ok(user) => if user.mint != mint {
                Err(EscrowError::InvalidAccountData)
            } else {
                match derived(SeedSet::EscrowOf(mint), program_id) {
                    None => Err(EscrowError::InvalidSeeds),
                    Some((escrow_pda, escrow_nonce)) => if escrow_pda != a[2].key {
                        Err(EscrowError::InvalidAccountData)
                    } else {
                        match derived(SeedSet::VaultOf(mint), program_id) {
                            None => Err(EscrowError::InvalidSeeds),
                            Some((vault_pda, vault_nonce)) => if vault_pda != a[3].key {
                                Err(EscrowError::InvalidAccountData)
                            } else {
                                let escrow = DerivedAuthority {
                                    address: escrow_pda,
                                    seeds: SeedSet::EscrowOf(mint),
                                    nonce: escrow_nonce,
                                };
                                let vault = DerivedAuthority {
                                    address: vault_pda,
                                    seeds: SeedSet::VaultOf(mint),
                                    nonce: vault_nonce,
                                };
                                match deposit_record(program_id, a, mint, escrow, vault_pda, env) {
                                    Err(e) => Err(e),
                                    Ok((record, create_record)) => match deposit_vault(a, mint, vault, env) {
                                        Err(e) => Err(e),
                                        Ok(create_vault) => Ok((record, create_record + create_vault)),
                                    },
                                }
                            },
                        }
                    },
                }
            },
        }
    }
}

/// A deposit of `amount`, with accounts: depositor (signer), depositor's asset
/// account, record, vault, system program, asset-transfer program, rent,
/// audit program, audit counter, audit record, audit payer, system program,
/// asset type. The record and the vault must sit at the addresses derived from
/// the asset type; either is created when it holds no lamports. Then the
/// amount moves into the vault, the total grows by it under checked addition,
/// and the deposit is logged.
pub open spec fn deposit_plan(program_id: Key, a: Seq<AccountView>, amount: u64, env: VaultEnv) -> Result<
    Seq<Call>,
    EscrowError,
> {
    match deposit_accounts(program_id, a, env) {
        Err(e) => Err(e),
        Ok((record, create)) => if record.total_deposited + amount > u64::MAX {
            Err(EscrowError::AmountOverflow)
        } else {
            Ok(
                create + seq![
                    Call::Transfer {
                        source: a[1].key,
                        destination: a[3].key,
                        authority: Signer::Key(a[0].key),
                        amount,
                    },
                    Call::WriteVaultRecord {
                        account: a[2].key,
                        record: EscrowState {
                            total_deposited: (record.total_deposited + amount) as u64,
                            ..record
                        },
                    },
                    Call::Log {
                        accounts: log_accounts(a, 7),
                        entry: LogEntry { from: a[0].key, to: a[3].key, amount, timestamp: env.timestamp },
                    },
                ],
            )
        },
    }
}

/// The audit accounts, which stand at `at .. at + 5`.
pub open spec fn log_accounts(a: Seq<AccountView>, at: int) -> LogAccounts {
    LogAccounts {
        program: a[at].key,
        state: a[at + 1].key,
        message: a[at + 2].key,
        payer: a[at + 3].key,
        system_program: a[at + 4].key,
    }
}

/// A withdrawal of `amount`, with accounts: withdrawer (signer), withdrawer's
/// asset account, record, vault, asset-transfer program, audit program, audit
/// counter, vault authority, audit record, audit payer, system program. The
/// record must be initialized and sit at the address derived from its asset
/// type, name the vault supplied, and hold at least `amount`; the vault must
/// hold that asset type, the authority be the derived one, and the
/// asset-transfer program account be that program. Then the
/// amount leaves the vault under the derived authority, the total shrinks by
/// it, and the withdrawal is logged.
pub open spec fn withdraw_plan(program_id: Key, a: Seq<AccountView>, amount: u64, env: VaultEnv) -> Result<
    Seq<Call>,
    EscrowError,
> {
    if a.len() < 1 {
        Err(EscrowError::NotEnoughAccountKeys)
    } else if !a[0].is_signer {
        Err(EscrowError::MissingSignature)
    } else if a.len() < 11 {
        Err(EscrowError::NotEnoughAccountKeys)
    } else {
        match EscrowState::decoded(a[2].data@) {
            Err(e) => Err(e),
            Ok(st) => {
                let mint = st.token_mint;
                match derived(SeedSet::EscrowOf(mint), program_id) {
                    None => Err(EscrowError::InvalidSeeds),
                    Some((escrow_pda, _)) => if escrow_pda != a[2].key {
                        Err(EscrowError::InvalidAccountData)
                    } else if st.escrow_vault_account != a[3].key {
                        Err(EscrowError::InvalidAccountData)
                    } else if st.total_deposited < amount {
                        Err(EscrowError::InsufficientAmount)
                    } else {
                        match token_account_decoded(a[3].data@) {
                            Err(e) => Err(e),
                            Ok(v) => if v.mint != mint {
                                Err(EscrowError::MintMismatch)
                            } else {
                                match derived(SeedSet::VaultOf(mint), program_id) {
                                    None => Err(EscrowError::InvalidSeeds),
                                    Some((vault_pda, vault_nonce)) => if vault_pda != a[7].key {
                                        Err(EscrowError::InvalidSeeds)
                                    } else if a[4].key != token_program_key() {
                                        Err(EscrowError::IncorrectProgramOwner)
                                    } else {
                                        Ok(
                                            seq![
                                                Call::Transfer {
                                                    source: a[3].key,
                                                    destination: a[1].key,
                                                    authority: Signer::Derived(
                                                        DerivedAuthority {
                                                            address: vault_pda,
                                                            seeds: SeedSet::VaultOf(mint),
                                                            nonce: vault_nonce,
                                                        },
                                                    ),
                                                    amount,
                                                },
                                                Call::WriteVaultRecord {
                                                    account: a[2].key,
                                                    record: EscrowState {
                                                        total_deposited: (st.total_deposited - amount) as u64,
                                                        ..st
                                                    },
                                                },
                                                Call::Log {
                                                    accounts: LogAccounts {
                                                        program: a[5].key,
                                                        state: a[6].key,
                                                        message: a[8].key,
                                                        payer: a[9].key,
                                                        system_program: a[10].key,
                                                    },
                                                    entry: LogEntry {
                                                        from: a[3].key,
                                                        to: a[0].key,
                                                        amount,
                                                        timestamp: env.timestamp,
                                                    },
                                                },
                                            ],
                                        )
                                    },
                                }
                            },
                        }
                    },
                }
            },
        }
    }
}

/// What a vault instruction plans.
pub open spec fn vault_plan(program_id: Key, a: Seq<AccountView>, data: Seq<u8>, env: VaultEnv) -> Result<
    Seq<Call>,
    EscrowError,
> {
    match EscrowInstruction::decoded(data) {
        Err(e) => Err(e),
        Ok(EscrowInstruction::Deposit { amount }) => deposit_plan(program_id, a, amount, env),
        Ok(EscrowInstruction::Withdraw { amount }) => withdraw_plan(program_id, a, amount, env),
    }
}

impl EscrowProcessor {
    /// Decodes a vault instruction and plans it.
    pub fn process(
        program_id: &Key,
        accounts: &Vec<AccountView>,
        instruction_data: &[u8],
        env: VaultEnv,
    ) -> (r: Result<Vec<Call>, EscrowError>)
        ensures
            planned(r) == vault_plan(*program_id, accounts@, instruction_data@, env),
    {
        match EscrowInstruction::unpack(instruction_data) {
            Err(e) => Err(e),
            Ok(EscrowInstruction::Deposit { amount }) => Self::process_deposit(
                accounts,
                amount,
                program_id,
                env,
            ),
            Ok(EscrowInstruction::Withdraw { amount }) => Self::process_withdraw(
                accounts,
                amount,
                program_id,
                env,
            ),
        }
    }

    fn record_for_deposit(
        program_id: &Key,
        accounts: &Vec<AccountView>,
        mint: Key,
        escrow: DerivedAuthority,
        vault: Key,
        env: VaultEnv,
        calls: &mut Vec<Call>,
    ) -> (r: Result<EscrowState, EscrowError>)
        requires
            accounts@.len() >= 13,
        ensures
            match deposit_record(*program_id, accounts@, mint, escrow, vault, env) {
                Ok((record, more)) => r == Ok::<EscrowState, EscrowError>(record) && final(calls)@
                    == old(calls)@ + more,
                Err(e) => r == Err::<EscrowState, EscrowError>(e),
            },
    {
        let record_account = &accounts[2];
        if record_account.lamports == 0 {
            calls.push(
                Call::CreateAccount {
                    payer: accounts[0].key,
                    account: record_account.key,
                    lamports: env.record_rent,
                    space: VAULT_RECORD_LEN as u64,
                    owner: *program_id,
                    signer: escrow,
                },
            );
            Ok(
                EscrowState {
                    is_initialized: true,
                    token_mint: mint,
                    escrow_vault_account: vault,
                    total_deposited: 0,
                },
            )
        } else {
            let existing = match EscrowState::unpack(record_account.data.as_slice()) {
                Ok(r) => r,
                Err(e) => return Err(e),
            };
            if existing.token_mint != mint {
                return Err(EscrowError::MintMismatch);
            }
            assert(final(calls)@ =~= old(calls)@ + seq![]);
            Ok(existing)
        }
    }

    fn vault_for_deposit(
        accounts: &Vec<AccountView>,
        mint: Key,
        vault: DerivedAuthority,
        env: VaultEnv,
        calls: &mut Vec<Call>,
    ) -> (r: Result<(), EscrowError>)
        requires
            accounts@.len() >= 13,
        ensures
            match deposit_vault(accounts@, mint, vault, env) {
                Ok(more) => r is Ok && final(calls)@ == old(calls)@ + more,
                Err(e) => r == Err::<(), EscrowError>(e),
            },
    {
        let vault_account = &accounts[3];
        if vault_account.lamports == 0 {
            let create = Call::CreateAccount {
                payer: accounts[0].key,
                account: vault_account.key,
                lamports: env.token_account_rent,
                space: TOKEN_ACCOUNT_LEN as u64,
                owner: token_program_id(),
                signer: vault,
            };
            let init = Call::InitializeAccount { account: vault_account.key, mint, owner: vault.address };
            calls.push(create);
            calls.push(init);
            assert(final(calls)@ =~= old(calls)@ + seq![create, init]);
            Ok(())
        } else {
            let existing = match TokenAccount::unpack(vault_account.data.as_slice()) {
                Ok(t) => t,
                Err(e) => return Err(e),
            };
            if existing.mint != mint {
                return Err(EscrowError::MintMismatch);
            }
            assert(final(calls)@ =~= old(calls)@ + seq![]);
            Ok(())
        }
    }

    /// Plans a deposit of `amount`.
    pub fn process_deposit(
        accounts: &Vec<AccountView>,
        amount: u64,
        program_id: &Key,
        env: VaultEnv,
    ) -> (r: Result<Vec<Call>, EscrowError>)
        ensures
            planned(r) == deposit_plan(*program_id, accounts@, amount, env),
    {
        if accounts.len() < 1 {
            return Err(EscrowError::NotEnoughAccountKeys);
        }
        if !accounts[0].is_signer {
            return Err(EscrowError::MissingSignature);
        }
        if accounts.len() < 13 {
            return Err(EscrowError::NotEnoughAccountKeys);
        }
        let user = &accounts[0];
        let user_token = &accounts[1];
        let record_account = &accounts[2];
        let vault_account = &accounts[3];
        let mint = accounts[12].key;
        let token_program = token_program_id();
        if user_token.owner != token_program || accounts[5].key != token_program {
            return Err(EscrowError::IncorrectProgramOwner);
        }
        let user_token_data = match TokenAccount::unpack(user_token.data.as_slice()) {
            Ok(t) => t,
            Err(e) => return Err(e),
        };
        if user_token_data.mint != mint {
            return Err(EscrowError::InvalidAccountData);
        }
        let (escrow_pda, escrow_nonce) = match derive_address(SeedSet::EscrowOf(mint), program_id) {
            Some(p) => p,
            None => return Err(EscrowError::InvalidSeeds),
        };
        if escrow_pda != record_account.key {
            return Err(EscrowError::InvalidAccountData);
        }
        let (vault_pda, vault_nonce) = match derive_address(SeedSet::VaultOf(mint), program_id) {
            Some(p) => p,
            None => return Err(EscrowError::InvalidSeeds),
        };
        if vault_pda != vault_account.key {
            return Err(EscrowError::InvalidAccountData);
        }
        let escrow = DerivedAuthority {
            address: escrow_pda,
            seeds: SeedSet::EscrowOf(mint),
            nonce: escrow_nonce,
        };
        let vault = DerivedAuthority { address: vault_pda, seeds: SeedSet::VaultOf(mint), nonce: vault_nonce };
        let mut calls: Vec<Call> = Vec::new();
        let record = match Self::record_for_deposit(
            program_id,
            accounts,
            mint,
            escrow,
            vault_pda,
            env,
            &mut calls,
        ) {
            Ok(r) => r,
            Err(e) => return Err(e),
        };
        match Self::vault_for_deposit(accounts, mint, vault, env, &mut calls) {
            Ok(()) => {},
            Err(e) => return Err(e),
        }
        let ghost after_vault = calls@;
        let total = match record.total_deposited.checked_add(amount) {
            Some(t) => t,
            None => return Err(EscrowError::AmountOverflow),
        };
        let transfer = Call::Transfer {
            source: user_token.key,
            destination: vault_account.key,
            authority: Signer::Key(user.key),
            amount,
        };
        let write = Call::WriteVaultRecord {
            account: record_account.key,
            record: EscrowState { total_deposited: total, ..record },
        };
        let log = Call::Log {
            accounts: LogAccounts {
                program: accounts[7].key,
                state: accounts[8].key,
                message: accounts[9].key,
                payer: accounts[10].key,
                system_program: accounts[11].key,
            },
            entry: LogEntry { from: user.key, to: vault_account.key, amount, timestamp: env.timestamp },
        };
        calls.push(transfer);
        calls.push(write);
        calls.push(log);
        assert(calls@ =~= after_vault + seq![transfer, write, log]);
        Ok(calls)
    }

    /// Plans a withdrawal of `amount`.
    pub fn process_withdraw(
        accounts: &Vec<AccountView>,
        amount: u64,
        program_id: &Key,
        env: VaultEnv,
    ) -> (r: Result<Vec<Call>, EscrowError>)
        ensures
            planned(r) == withdraw_plan(*program_id, accounts@, amount, env),
    {
        if accounts.len() < 1 {
            return Err(EscrowError::NotEnoughAccountKeys);
        }
        if !accounts[0].is_signer {
            return Err(EscrowError::MissingSignature);
        }
        if accounts.len() < 11 {
            return Err(EscrowError::NotEnoughAccountKeys);
        }
        let user = &accounts[0];
        let user_token = &accounts[1];
        let record_account = &accounts[2];
        let vault_account = &accounts[3];
        let vault_authority = &accounts[7];
        let st = match EscrowState::unpack(record_account.data.as_slice()) {
            Ok(s) => s,
            Err(e) => return Err(e),
        };
        let mint = st.token_mint;
        let (escrow_pda, _) = match derive_address(SeedSet::EscrowOf(mint), program_id) {
            Some(p) => p,
            None => return Err(EscrowError::InvalidSeeds),
        };
        if escrow_pda != record_account.key {
            return Err(EscrowError::InvalidAccountData);
        }
        if st.escrow_vault_account != vault_account.key {
            return Err(EscrowError::InvalidAccountData);
        }
        if st.total_deposited < amount {
            return Err(EscrowError::InsufficientAmount);
        }
        let remaining = st.total_deposited - amount;
        let vault_data = match TokenAccount::unpack(vault_account.data.as_slice()) {
            Ok(t) => t,
            Err(e) => return Err(e),
        };
        if vault_data.mint != mint {
            return Err(EscrowError::MintMismatch);
        }
        let (vault_pda, vault_nonce) = match derive_address(SeedSet::VaultOf(mint), program_id) {
            Some(p) => p,
            None => return Err(EscrowError::InvalidSeeds),
        };
        if vault_pda != vault_authority.key {
            return Err(EscrowError::InvalidSeeds);
        }
        if accounts[4].key != token_program_id() {
            return Err(EscrowError::IncorrectProgramOwner);
        }
        let transfer = Call::Transfer {
            source: vault_account.key,
            destination: user_token.key,
            authority: Signer::Derived(
                DerivedAuthority { address: vault_pda, seeds: SeedSet::VaultOf(mint), nonce: vault_nonce },
            ),
            amount,
        };
        let write = Call::WriteVaultRecord {
            account: record_account.key,
            record: EscrowState { total_deposited: remaining, ..st },
        };
        let log = Call::Log {
            accounts: LogAccounts {
                program: accounts[5].key,
                state: accounts[6].key,
                message: accounts[8].key,
                payer: accounts[9].key,
                system_program: accounts[10].key,
            },
            entry: LogEntry { from: vault_account.key, to: user.key, amount, timestamp: env.timestamp },
        };
        let mut calls: Vec<Call> = Vec::new();
        calls.push(transfer);
        calls.push(write);
        calls.push(log);
        assert(calls@ =~= seq![transfer, write, log]);
        Ok(calls)
    }
}

/// A deposit that passes every account check but whose amount would carry
/// the total past `u64::MAX` is refused with `AmountOverflow`: no record is
/// written, so the total stays as it was.
pub proof fn lemma_deposit_overflow_refused(program_id: Key, a: Seq<AccountView>, amount: u64, env: VaultEnv)
    requires
        deposit_accounts(program_id, a, env) is Ok,
        deposit_accounts(program_id, a, env)->Ok_0.0.total_deposited + amount > u64::MAX,
    ensures
        deposit_plan(program_id, a, amount, env) == Err::<Seq<Call>, EscrowError>(EscrowError::AmountOverflow),
{
}

/// A deposit that goes through writes the record back with its total grown by
/// exactly the amount deposited, after moving that amount into the vault.
pub proof fn lemma_deposit_adds(program_id: Key, a: Seq<AccountView>, amount: u64, env: VaultEnv)
    requires
        deposit_plan(program_id, a, amount, env) is Ok,
    ensures
        ({
            let (record, create) = deposit_accounts(program_id, a, env)->Ok_0;
            let calls = deposit_plan(program_id, a, amount, env)->Ok_0;
            &&& deposit_accounts(program_id, a, env) is Ok
            &&& record.total_deposited + amount <= u64::MAX
            &&& calls[create.len() as int + 1] == Call::WriteVaultRecord {
                account: a[2].key,
                record: EscrowState {
                    total_deposited: (record.total_deposited + amount) as u64,
                    ..record
                },
            }
        }),
{
}

/// A withdrawal of more than the record's total, from a record that passes the
/// checks before the total is compared, is refused with `InsufficientAmount`
/// and plans no transfer.
pub proof fn lemma_withdraw_insufficient(
    program_id: Key,
    a: Seq<AccountView>,
    amount: u64,
    env: VaultEnv,
    st: EscrowState,
    nonce: u8,
)
    requires
        a.len() >= 11,
        a[0].is_signer,
        EscrowState::decoded(a[2].data@) == Ok::<EscrowState, EscrowError>(st),
        derived(SeedSet::EscrowOf(st.token_mint), program_id) == Some((a[2].key, nonce)),
        st.escrow_vault_account == a[3].key,
        amount > st.total_deposited,
    ensures
        withdraw_plan(program_id, a, amount, env) == Err::<Seq<Call>, EscrowError>(
            EscrowError::InsufficientAmount,
        ),
{
}

/// The record a deposit of `amount` writes back: the record it found, with
/// `amount` added to the total.
pub open spec fn deposited_record(program_id: Key, a: Seq<AccountView>, amount: u64, env: VaultEnv) -> EscrowState {
    let record = deposit_accounts(program_id, a, env)->Ok_0.0;
    EscrowState { total_deposited: (record.total_deposited + amount) as u64, ..record }
}

/// Two deposits into a fresh record, the second made once the record the first
/// wrote is stored, write totals of the first amount and then of the sum of
/// both.
pub proof fn lemma_deposits_accumulate(
    program_id: Key,
    first: Seq<AccountView>,
    second: Seq<AccountView>,
    first_amount: u64,
    second_amount: u64,
    env: VaultEnv,
)
    requires
        first[2].lamports == 0,
        deposit_plan(program_id, first, first_amount, env) is Ok,
        second[2].lamports != 0,
        EscrowState::decoded(second[2].data@) == Ok::<EscrowState, EscrowError>(
            deposited_record(program_id, first, first_amount, env),
        ),
        deposit_plan(program_id, second, second_amount, env) is Ok,
    ensures
        deposited_record(program_id, first, first_amount, env).total_deposited == first_amount,
        deposited_record(program_id, second, second_amount, env).total_deposited == first_amount
            + second_amount,
        deposit_plan(program_id, first, first_amount, env)->Ok_0.contains(
            Call::WriteVaultRecord {
                account: first[2].key,
                record: deposited_record(program_id, first, first_amount, env),
            },
        ),
        deposit_plan(program_id, second, second_amount, env)->Ok_0.contains(
            Call::WriteVaultRecord {
                account: second[2].key,
                record: deposited_record(program_id, second, second_amount, env),
            },
        ),
{
    lemma_deposit_adds(program_id, first, first_amount, env);
    lemma_deposit_adds(program_id, second, second_amount, env);
    let c1 = deposit_accounts(program_id, first, env)->Ok_0.1;
    let c2 = deposit_accounts(program_id, second, env)->Ok_0.1;
    assert(deposit_plan(program_id, first, first_amount, env)->Ok_0[c1.len() as int + 1] == Call::WriteVaultRecord {
        account: first[2].key,
        record: deposited_record(program_id, first, first_amount, env),
    });
    assert(deposit_plan(program_id, second, second_amount, env)->Ok_0[c2.len() as int + 1] == Call::WriteVaultRecord {
        account: second[2].key,
        record: deposited_record(program_id, second, second_amount, env),
    });
}

} // verus!
