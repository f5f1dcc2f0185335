//! What the engine sees of the accounts a caller supplies, and the calls it
//! plans into its collaborators. The host performs the planned calls in order
//! and commits them all or none.
use crate::address::SeedSet;
use crate::error::EscrowError;
use crate::key::Key;
use crate::logger::{LogEntry, LoggerState, MessageData};
use crate::state::{Escrow, EscrowState};
use vstd::prelude::*;

verus! {

/// One account as supplied to an instruction.
#[derive(Clone, Debug)]
pub struct AccountView {
    pub key: Key,
    /// The program that owns the account.
    pub owner: Key,
    pub is_signer: bool,
    pub is_writable: bool,
    pub lamports: u64,
    pub data: Vec<u8>,
}

/// An address the program signs for by re-supplying its seeds and nonce.
#[derive(Clone, Copy, Debug, PartialEq, Eq, Structural)]
pub struct DerivedAuthority {
    pub address: Key,
    pub seeds: SeedSet,
    pub nonce: u8,
}

/// Who authorizes a call into the asset-transfer program.
#[derive(Clone, Copy, Debug, PartialEq, Eq, Structural)]
pub enum Signer {
    /// A key that signed the transaction.
    Key(Key),
    /// An address derived by the program, signed for by its seeds.
    Derived(DerivedAuthority),
}

/// The accounts an audit call names.
#[derive(Clone, Copy, Debug, PartialEq, Eq, Structural)]
pub struct LogAccounts {
    pub program: Key,
    pub state: Key,
    pub message: Key,
    pub payer: Key,
    pub system_program: Key,
}

/// One step of a settlement.
#[derive(Clone, Copy, Debug, PartialEq, Eq, Structural)]
pub enum Call {
    /// Create `account` with `lamports` and `space` bytes, owned by `owner`;
    /// the new address signs through `signer`.
    CreateAccount {
        payer: Key,
        account: Key,
        lamports: u64,
        space: u64,
        owner: Key,
        signer: DerivedAuthority,
    },
    /// Make `account` an asset account of `mint` controlled by `owner`.
    InitializeAccount { account: Key, mint: Key, owner: Key },
    /// Move `amount` of an asset from `source` to `destination`.
    Transfer { source: Key, destination: Key, authority: Signer, amount: u64 },
    /// Hand control of `account` from `current` to `new_authority`.
    SetAuthority { account: Key, current: Key, new_authority: Key },
    /// Close the empty `account`, returning its balance to `destination`.
    CloseAccount { account: Key, destination: Key, authority: Signer },
    /// Move all `amount` lamports of `from` to `to`, leaving `from` at zero.
    DrainLamports { from: Key, to: Key, amount: u64 },
    /// Store a vault record in `account`.
    WriteVaultRecord { account: Key, record: EscrowState },
    /// Store a swap record in `account`.
    WriteSwapRecord { account: Key, escrow: Escrow },
    /// Store the audit log's sequence counter in `account`.
    WriteLoggerState { account: Key, state: LoggerState },
    /// Store an audit record in `account`.
    WriteMessage { account: Key, message: MessageData },
    /// Call the audit log with `entry`.
    Log { accounts: LogAccounts, entry: LogEntry },
}

/// The calls a processor planned, or the error it refused with.
pub open spec fn planned(r: Result<Vec<Call>, EscrowError>) -> Result<Seq<Call>, EscrowError> {
    match r {
        Ok(calls) => Ok(calls@),
        Err(e) => Err(e),
    }
}

} // verus!
