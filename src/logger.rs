//! The audit log: a sequence counter, the fixed-size entry that a settlement
//! hands over, and one permanent record per sequence number at an address
//! derived from that number.
use crate::address::{derive_address, derived, SeedSet};
use crate::codec::{read_u64, u64_at, write_u64};
use crate::error::EscrowError;
use crate::key::{lemma_key_bytes, Key};
use crate::settlement::{planned, AccountView, Call, DerivedAuthority};
use vstd::bytes::{lemma_auto_spec_u64_to_from_le_bytes, spec_u64_to_le_bytes};
use vstd::prelude::*;

verus! {

/// The byte width of the sequence counter.
pub const LOGGER_STATE_LEN: usize = 8;

/// The byte width of an audit entry: from, to, amount, timestamp.
pub const LOG_ENTRY_LEN: usize = 80;

/// The byte width of an audit record: an entry and its sequence number.
pub const MESSAGE_LEN: usize = 88;

/// The audit log's counter: the sequence number of the last record.
#[derive(Clone, Copy, Debug, PartialEq, Eq, Structural)]
pub struct LoggerState {
    pub sequence: u64,
}

impl LoggerState {
    /// `[sequence:8]`.
    pub open spec fn encoding(self) -> Seq<u8> {
        spec_u64_to_le_bytes(self.sequence)
    }

    /// The counter held in the first 8 bytes of `s`.
    pub open spec fn decoded(s: Seq<u8>) -> Result<LoggerState, EscrowError> {
        if s.len() < LOGGER_STATE_LEN {
            Err(EscrowError::InvalidAccountData)
        } else {
            Ok(LoggerState { sequence: u64_at(s, 0) })
        }
    }

    /// Reads the counter from the first 8 bytes of `src`.
    pub fn unpack_from_slice(src: &[u8]) -> (r: Result<LoggerState, EscrowError>)
        ensures
            r == LoggerState::decoded(src@),
    {
        if src.len() < LOGGER_STATE_LEN {
            return Err(EscrowError::InvalidAccountData);
        }
        Ok(LoggerState { sequence: read_u64(src, 0) })
    }

    /// The 8 bytes of the counter.
    pub fn pack(&self) -> (r: Vec<u8>)
        ensures
            r@ == self.encoding(),
    {
        let mut r: Vec<u8> = Vec::new();
        write_u64(&mut r, self.sequence);
        assert(r@ =~= self.encoding());
        r
    }
}

/// What a settlement reports to the audit log.
#[derive(Clone, Copy, Debug, PartialEq, Eq, Structural)]
pub struct LogEntry {
    pub from: Key,
    pub to: Key,
    pub amount: u64,
    pub timestamp: u64,
}

impl LogEntry {
    /// `[from:32][to:32][amount:8][timestamp:8]`.
    pub open spec fn encoding(self) -> Seq<u8> {
        self.from.bytes() + self.to.bytes() + spec_u64_to_le_bytes(self.amount)
            + spec_u64_to_le_bytes(self.timestamp)
    }

    /// The entry held in the first 80 bytes of `s`.
    pub open spec fn read(s: Seq<u8>) -> LogEntry {
        LogEntry {
            from: Key::from_seq(s.subrange(0, 32)),
            to: Key::from_seq(s.subrange(32, 64)),
            amount: u64_at(s, 64),
            timestamp: u64_at(s, 72),
        }
    }

    /// The entry a payload carries; a payload of any other width is refused.
    pub open spec fn decoded(s: Seq<u8>) -> Result<LogEntry, EscrowError> {
        if s.len() != LOG_ENTRY_LEN {
            Err(EscrowError::InvalidInstructionData)
        } else {
            Ok(LogEntry::read(s))
        }
    }

    /// Decodes an audit payload.
    pub fn unpack(src: &[u8]) -> (r: Result<LogEntry, EscrowError>)
        ensures
            r == LogEntry::decoded(src@),
    {
        if src.len() != LOG_ENTRY_LEN {
            return Err(EscrowError::InvalidInstructionData);
        }
        Ok(
            LogEntry {
                from: Key::read(src, 0),
                to: Key::read(src, 32),
                amount: read_u64(src, 64),
                timestamp: read_u64(src, 72),
            },
        )
    }

    /// The 80 bytes of the entry.
    pub fn pack(&self) -> (r: Vec<u8>)
        ensures
            r@ == self.encoding(),
            r@.len() == LOG_ENTRY_LEN,
    {
        let mut r: Vec<u8> = Vec::new();
        self.from.write(&mut r);
        self.to.write(&mut r);
        write_u64(&mut r, self.amount);
        write_u64(&mut r, self.timestamp);
        proof {
            lemma_key_bytes(self.from);
            lemma_key_bytes(self.to);
            lemma_auto_spec_u64_to_from_le_bytes();
        }
        assert(r@ =~= self.encoding());
        r
    }
}

/// One permanent audit record.
#[derive(Clone, Copy, Debug, PartialEq, Eq, Structural)]
pub struct MessageData {
    pub from_pubkey: Key,
    pub to_pubkey: Key,
    pub amount: u64,
    pub timestamp: u64,
    pub sequence: u64,
}

impl MessageData {
    /// `[from:32][to:32][amount:8][timestamp:8][sequence:8]`.
    pub open spec fn encoding(self) -> Seq<u8> {
        self.from_pubkey.bytes() + self.to_pubkey.bytes() + spec_u64_to_le_bytes(self.amount)
            + spec_u64_to_le_bytes(self.timestamp) + spec_u64_to_le_bytes(self.sequence)
    }

    /// The record held in the first 88 bytes of `s`.
    pub open spec fn decoded(s: Seq<u8>) -> Result<MessageData, EscrowError> {
        if s.len() < MESSAGE_LEN {
            Err(EscrowError::InvalidAccountData)
        } else {
            Ok(
                MessageData {
                    from_pubkey: Key::from_seq(s.subrange(0, 32)),
                    to_pubkey: Key::from_seq(s.subrange(32, 64)),
                    amount: u64_at(s, 64),
                    timestamp: u64_at(s, 72),
                    sequence: u64_at(s, 80),
                },
            )
        }
    }

    /// Reads the record from the first 88 bytes of `src`.
    pub fn unpack_from_slice(src: &[u8]) -> (r: Result<MessageData, EscrowError>)
        ensures
            r == MessageData::decoded(src@),
    {
        if src.len() < MESSAGE_LEN {
            return Err(EscrowError::InvalidAccountData);
        }
        Ok(
            MessageData {
                from_pubkey: Key::read(src, 0),
                to_pubkey: Key::read(src, 32),
                amount: read_u64(src, 64),
                timestamp: read_u64(src, 72),
                sequence: read_u64(src, 80),
            },
        )
    }

    /// The 88 bytes of the record.
    pub fn pack(&self) -> (r: Vec<u8>)
        ensures
            r@ == self.encoding(),
            r@.len() == MESSAGE_LEN,
    {
        let mut r: Vec<u8> = Vec::new();
        self.from_pubkey.write(&mut r);
        self.to_pubkey.write(&mut r);
        write_u64(&mut r, self.amount);
        write_u64(&mut r, self.timestamp);
        write_u64(&mut r, self.sequence);
        proof {
            lemma_key_bytes(self.from_pubkey);
            lemma_key_bytes(self.to_pubkey);
            lemma_auto_spec_u64_to_from_le_bytes();
        }
        assert(r@ =~= self.encoding());
        r
    }
}

/// What the audit log does with `data` given `accounts` (counter, record,
/// payer, system program): check the payload width, the account count and that
/// the first two are writable; advance the counter by one; derive the record
/// address from the new sequence number; create the record account when it
/// holds no lamports yet; store the counter and the record.
pub open spec fn logged(program_id: Key, accounts: Seq<AccountView>, data: Seq<u8>, rent: u64) -> Result<
    Seq<Call>,
    EscrowError,
> {
    if data.len() != LOG_ENTRY_LEN {
        Err(EscrowError::InvalidInstructionData)
    } else if accounts.len() < 4 {
        Err(EscrowError::NotEnoughAccountKeys)
    } else if !accounts[0].is_writable || !accounts[1].is_writable {
        Err(EscrowError::InvalidAccountData)
    } else {
        match LoggerState::decoded(accounts[0].data@) {
            Err(e) => Err(e),
            Ok(st) => if st.sequence == u64::MAX {
                Err(EscrowError::AmountOverflow)
            } else if accounts[0].data@.len() != LOGGER_STATE_LEN {
                Err(EscrowError::InvalidAccountData)
            } else {
                let sequence = (st.sequence + 1) as u64;
                let entry = LogEntry::read(data);
                match derived(SeedSet::Logger(sequence), program_id) {
                    None => Err(EscrowError::InvalidSeeds),
                    Some((pda, nonce)) => if pda != accounts[1].key {
                        Err(EscrowError::InvalidArgument)
                    } else {
                        let write_state = Call::WriteLoggerState {
                            account: accounts[0].key,
                            state: LoggerState { sequence },
                        };
                        let write_message = Call::WriteMessage {
                            account: accounts[1].key,
                            message: MessageData {
                                from_pubkey: entry.from,
                                to_pubkey: entry.to,
                                amount: entry.amount,
                                timestamp: entry.timestamp,
                                sequence,
                            },
                        };
                        if accounts[1].lamports == 0 {
                            Ok(
                                seq![
                                    write_state,
                                    Call::CreateAccount {
                                        payer: accounts[2].key,
                                        account: accounts[1].key,
                                        lamports: rent,
                                        space: MESSAGE_LEN as u64,
                                        owner: program_id,
                                        signer: DerivedAuthority {
                                            address: pda,
                                            seeds: SeedSet::Logger(sequence),
                                            nonce,
                                        },
                                    },
                                    write_message,
                                ],
                            )
                        } else if accounts[1].data@.len() != MESSAGE_LEN {
                            Err(EscrowError::InvalidAccountData)
                        } else {
                            Ok(seq![write_state, write_message])
                        }
                    },
                }
            },
        }
    }
}

/// Records one audit entry: the counter goes up by exactly one and a record
/// carrying the new sequence number is stored at the address derived from it.
/// `message_rent` is the minimum balance of an 88-byte account.
pub fn process_instruction(
    program_id: &Key,
    accounts: &Vec<AccountView>,
    instruction_data: &[u8],
    message_rent: u64,
) -> (r: Result<Vec<Call>, EscrowError>)
    ensures
        planned(r) == logged(*program_id, accounts@, instruction_data@, message_rent),
{
    let entry = match LogEntry::unpack(instruction_data) {
        Ok(e) => e,
        Err(e) => return Err(e),
    };
    if accounts.len() < 4 {
        return Err(EscrowError::NotEnoughAccountKeys);
    }
    let state_account = &accounts[0];
    let message_account = &accounts[1];
    let payer = &accounts[2];
    if !state_account.is_writable || !message_account.is_writable {
        return Err(EscrowError::InvalidAccountData);
    }
    let st = match LoggerState::unpack_from_slice(state_account.data.as_slice()) {
        Ok(s) => s,
        Err(e) => return Err(e),
    };
    if st.sequence == u64::MAX {
        return Err(EscrowError::AmountOverflow);
    }
    if state_account.data.len() != LOGGER_STATE_LEN {
        return Err(EscrowError::InvalidAccountData);
    }
    let sequence = st.sequence + 1;
    let (pda, nonce) = match derive_address(SeedSet::Logger(sequence), program_id) {
        Some(p) => p,
        None => return Err(EscrowError::InvalidSeeds),
    };
    if pda != message_account.key {
        return Err(EscrowError::InvalidArgument);
    }
    let write_state = Call::WriteLoggerState {
        account: state_account.key,
        state: LoggerState { sequence },
    };
    let write_message = Call::WriteMessage {
        account: message_account.key,
        message: MessageData {
            from_pubkey: entry.from,
            to_pubkey: entry.to,
            amount: entry.amount,
            timestamp: entry.timestamp,
            sequence,
        },
    };
    let mut calls: Vec<Call> = Vec::new();
    calls.push(write_state);
    if message_account.lamports == 0 {
        let create = Call::CreateAccount {
            payer: payer.key,
            account: message_account.key,
            lamports: message_rent,
            space: MESSAGE_LEN as u64,
            owner: *program_id,
            signer: DerivedAuthority { address: pda, seeds: SeedSet::Logger(sequence), nonce },
        };
        calls.push(create);
        calls.push(write_message);
        assert(calls@ =~= seq![write_state, create, write_message]);
    } else {
        if message_account.data.len() != MESSAGE_LEN {
            return Err(EscrowError::InvalidAccountData);
        }
        calls.push(write_message);
        assert(calls@ =~= seq![write_state, write_message]);
    }
    Ok(calls)
}

/// Decoding the bytes of an audit entry gives the entry back.
pub proof fn lemma_log_entry_round_trip(e: LogEntry)
    ensures
        LogEntry::decoded(e.encoding()) == Ok::<LogEntry, EscrowError>(e),
{
    let s = e.encoding();
    lemma_key_bytes(e.from);
    lemma_key_bytes(e.to);
    lemma_auto_spec_u64_to_from_le_bytes();
    assert(s.subrange(0, 32) =~= e.from.bytes());
    assert(s.subrange(32, 64) =~= e.to.bytes());
    assert(s.subrange(64, 72) =~= spec_u64_to_le_bytes(e.amount));
    assert(s.subrange(72, 80) =~= spec_u64_to_le_bytes(e.timestamp));
}

/// Decoding the bytes of an audit record gives the record back.
pub proof fn lemma_message_round_trip(m: MessageData)
    ensures
        MessageData::decoded(m.encoding()) == Ok::<MessageData, EscrowError>(m),
{
    let s = m.encoding();
    lemma_key_bytes(m.from_pubkey);
    lemma_key_bytes(m.to_pubkey);
    lemma_auto_spec_u64_to_from_le_bytes();
    assert(s.subrange(0, 32) =~= m.from_pubkey.bytes());
    assert(s.subrange(32, 64) =~= m.to_pubkey.bytes());
    assert(s.subrange(64, 72) =~= spec_u64_to_le_bytes(m.amount));
    assert(s.subrange(72, 80) =~= spec_u64_to_le_bytes(m.timestamp));
    assert(s.subrange(80, 88) =~= spec_u64_to_le_bytes(m.sequence));
}

/// Decoding the bytes of the counter gives the counter back.
pub proof fn lemma_logger_state_round_trip(st: LoggerState)
    ensures
        LoggerState::decoded(st.encoding()) == Ok::<LoggerState, EscrowError>(st),
{
    lemma_auto_spec_u64_to_from_le_bytes();
    assert(st.encoding().subrange(0, 8) =~= st.encoding());
}

/// Each audit record that is stored advances the counter by exactly one and
/// carries the new sequence number, so successive records carry strictly
/// increasing sequence numbers.
pub proof fn lemma_log_sequence_advances(program_id: Key, accounts: Seq<AccountView>, data: Seq<u8>, rent: u64)
    requires
        logged(program_id, accounts, data, rent) is Ok,
    ensures
        ({
            let calls = logged(program_id, accounts, data, rent)->Ok_0;
            let before = LoggerState::decoded(accounts[0].data@)->Ok_0.sequence;
            let entry = LogEntry::decoded(data)->Ok_0;
            &&& LoggerState::decoded(accounts[0].data@) is Ok
            &&& LogEntry::decoded(data) is Ok
            &&& before < u64::MAX
            &&& calls[0] == Call::WriteLoggerState {
                account: accounts[0].key,
                state: LoggerState { sequence: (before + 1) as u64 },
            }
            &&& calls.last() == Call::WriteMessage {
                account: accounts[1].key,
                message: MessageData {
                    from_pubkey: entry.from,
                    to_pubkey: entry.to,
                    amount: entry.amount,
                    timestamp: entry.timestamp,
                    sequence: (before + 1) as u64,
                },
            }
        }),
{
}

/// Two audit records stored one after the other, the second with the counter
/// as the first left it, carry consecutive and so strictly increasing
/// sequence numbers.
pub proof fn lemma_log_sequences_increase(
    program_id: Key,
    first: Seq<AccountView>,
    second: Seq<AccountView>,
    first_data: Seq<u8>,
    second_data: Seq<u8>,
    rent: u64,
)
    requires
        logged(program_id, first, first_data, rent) is Ok,
        logged(program_id, first, first_data, rent)->Ok_0[0] matches Call::WriteLoggerState { state, .. }
            && second[0].data@ == state.encoding(),
        logged(program_id, second, second_data, rent) is Ok,
    ensures
        ({
            let one = logged(program_id, first, first_data, rent)->Ok_0.last();
            let two = logged(program_id, second, second_data, rent)->Ok_0.last();
            &&& one is WriteMessage
            &&& two is WriteMessage
            &&& one->WriteMessage_message.sequence + 1 == two->WriteMessage_message.sequence
            &&& one->WriteMessage_message.sequence < two->WriteMessage_message.sequence
        }),
{
    lemma_log_sequence_advances(program_id, first, first_data, rent);
    lemma_log_sequence_advances(program_id, second, second_data, rent);
    let before = LoggerState::decoded(first[0].data@)->Ok_0.sequence;
    lemma_logger_state_round_trip(LoggerState { sequence: (before + 1) as u64 });
}

} // verus!
