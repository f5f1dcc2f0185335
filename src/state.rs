//! The persisted escrow records and their fixed-width byte layouts.
use crate::codec::{read_u64, u64_at, write_u64};
use crate::error::EscrowError;
use crate::key::{lemma_key_bytes, Key};
use vstd::bytes::{lemma_auto_spec_u64_to_from_le_bytes, spec_u64_to_le_bytes};
use vstd::prelude::*;

verus! {

/// The byte width of a vault record: flag, asset type, vault, total.
pub const VAULT_RECORD_LEN: usize = 73;

/// The byte width of a swap record: flag, three keys, expected amount.
pub const SWAP_RECORD_LEN: usize = 105;

/// The byte that encodes a flag.
pub open spec fn flag_byte(b: bool) -> u8 {
    if b {
        1
    } else {
        0
    }
}

/// The vault escrow record: which asset type the vault holds, which account is
/// the vault, and how much has been deposited and not withdrawn.
#[derive(Clone, Copy, Debug, PartialEq, Eq, Structural)]
pub struct EscrowState {
    pub is_initialized: bool,
    pub token_mint: Key,
    pub escrow_vault_account: Key,
    pub total_deposited: u64,
}

impl EscrowState {
    /// `[initialized:1][asset type:32][vault:32][total deposited:8]`.
    pub open spec fn encoding(self) -> Seq<u8> {
        seq![flag_byte(self.is_initialized)] + self.token_mint.bytes()
            + self.escrow_vault_account.bytes() + spec_u64_to_le_bytes(self.total_deposited)
    }

    /// The record held in the first 73 bytes of `s`; a shorter buffer, or a
    /// flag byte other than 0 or 1, is refused.
    pub open spec fn decoding(s: Seq<u8>) -> Result<EscrowState, EscrowError> {
        if s.len() < VAULT_RECORD_LEN || s[0] > 1 {
            Err(EscrowError::InvalidAccountData)
        } else {
            Ok(
                EscrowState {
                    is_initialized: s[0] == 1,
                    token_mint: Key::from_seq(s.subrange(1, 33)),
                    escrow_vault_account: Key::from_seq(s.subrange(33, 65)),
                    total_deposited: u64_at(s, 65),
                },
            )
        }
    }

    /// What an account's data holds, read without regard to the flag: a buffer
    /// of any other width is refused.
    pub open spec fn decoded_unchecked(s: Seq<u8>) -> Result<EscrowState, EscrowError> {
        if s.len() != VAULT_RECORD_LEN {
            Err(EscrowError::InvalidAccountData)
        } else {
            EscrowState::decoding(s)
        }
    }

    /// What an account's data holds, which must be an initialized record.
    pub open spec fn decoded(s: Seq<u8>) -> Result<EscrowState, EscrowError> {
        match EscrowState::decoded_unchecked(s) {
            Ok(r) => if r.is_initialized {
                Ok(r)
            } else {
                Err(EscrowError::UninitializedAccount)
            },
            Err(e) => Err(e),
        }
    }

    pub fn is_initialized(&self) -> (r: bool)
        ensures
            r == self.is_initialized,
    {
        self.is_initialized
    }

    /// Reads the record from the first 73 bytes of `src`; a shorter buffer is
    /// refused with `InvalidAccountData`.
    pub fn unpack_from_slice(src: &[u8]) -> (r: Result<EscrowState, EscrowError>)
        ensures
            r == EscrowState::decoding(src@),
    {
        if src.len() < VAULT_RECORD_LEN {
            return Err(EscrowError::InvalidAccountData);
        }
        let flag = src[0];
        if flag > 1 {
            return Err(EscrowError::InvalidAccountData);
        }
        Ok(
            EscrowState {
                is_initialized: flag == 1,
                token_mint: Key::read(src, 1),
                escrow_vault_account: Key::read(src, 33),
                total_deposited: read_u64(src, 65),
            },
        )
    }

    /// Reads a record of exactly the fixed width, initialized or not.
    pub fn unpack_unchecked(src: &[u8]) -> (r: Result<EscrowState, EscrowError>)
        ensures
            r == EscrowState::decoded_unchecked(src@),
    {
        if src.len() != VAULT_RECORD_LEN {
            return Err(EscrowError::InvalidAccountData);
        }
        EscrowState::unpack_from_slice(src)
    }

    /// Reads an initialized record of exactly the fixed width.
    pub fn unpack(src: &[u8]) -> (r: Result<EscrowState, EscrowError>)
        ensures
            r == EscrowState::decoded(src@),
    {
        let r = match EscrowState::unpack_unchecked(src) {
            Ok(r) => r,
            Err(e) => return Err(e),
        };
        if !r.is_initialized {
            return Err(EscrowError::UninitializedAccount);
        }
        Ok(r)
    }

    /// The fixed-width bytes of the record.
    pub fn pack(&self) -> (r: Vec<u8>)
        ensures
            r@ == self.encoding(),
            r@.len() == VAULT_RECORD_LEN,
    {
        let mut r: Vec<u8> = Vec::new();
        r.push(if self.is_initialized { 1u8 } else { 0u8 });
        self.token_mint.write(&mut r);
        self.escrow_vault_account.write(&mut r);
        write_u64(&mut r, self.total_deposited);
        proof {
            lemma_key_bytes(self.token_mint);
            lemma_key_bytes(self.escrow_vault_account);
            lemma_auto_spec_u64_to_from_le_bytes();
        }
        assert(r@ =~= self.encoding());
        r
    }
}

/// The swap escrow record: who opened it, which account holds the offered
/// asset, where the opener wants to be paid, and how much it wants.
#[derive(Clone, Copy, Debug, PartialEq, Eq, Structural)]
pub struct Escrow {
    pub is_initialized: bool,
    pub initializer_pubkey: Key,
    pub temp_token_account_pubkey: Key,
    pub initializer_token_to_receive_account_pubkey: Key,
    pub expected_amount: u64,
}

impl Escrow {
    /// `[initialized:1][initializer:32][holding:32][destination:32][expected:8]`.
    pub open spec fn encoding(self) -> Seq<u8> {
        seq![flag_byte(self.is_initialized)] + self.initializer_pubkey.bytes()
            + self.temp_token_account_pubkey.bytes()
            + self.initializer_token_to_receive_account_pubkey.bytes() + spec_u64_to_le_bytes(
            self.expected_amount,
        )
    }

    /// What an account's data holds, read without regard to the flag: a buffer
    /// of any other width, or a flag byte other than 0 or 1, is refused.
    pub open spec fn decoded_unchecked(s: Seq<u8>) -> Result<Escrow, EscrowError> {
        if s.len() != SWAP_RECORD_LEN || s[0] > 1 {
            Err(EscrowError::InvalidAccountData)
        } else {
            Ok(
                Escrow {
                    is_initialized: s[0] == 1,
                    initializer_pubkey: Key::from_seq(s.subrange(1, 33)),
                    temp_token_account_pubkey: Key::from_seq(s.subrange(33, 65)),
                    initializer_token_to_receive_account_pubkey: Key::from_seq(s.subrange(65, 97)),
                    expected_amount: u64_at(s, 97),
                },
            )
        }
    }

    /// What an account's data holds, which must be an initialized record.
    pub open spec fn decoded(s: Seq<u8>) -> Result<Escrow, EscrowError> {
        match Escrow::decoded_unchecked(s) {
            Ok(r) => if r.is_initialized {
                Ok(r)
            } else {
                Err(EscrowError::UninitializedAccount)
            },
            Err(e) => Err(e),
        }
    }

    pub fn is_initialized(&self) -> (r: bool)
        ensures
            r == self.is_initialized,
    {
        self.is_initialized
    }

    /// Reads a record of exactly the fixed width, initialized or not.
    pub fn unpack_unchecked(src: &[u8]) -> (r: Result<Escrow, EscrowError>)
        ensures
            r == Escrow::decoded_unchecked(src@),
    {
        if src.len() != SWAP_RECORD_LEN {
            return Err(EscrowError::InvalidAccountData);
        }
        let flag = src[0];
        if flag > 1 {
            return Err(EscrowError::InvalidAccountData);
        }
        Ok(
            Escrow {
                is_initialized: flag == 1,
                initializer_pubkey: Key::read(src, 1),
                temp_token_account_pubkey: Key::read(src, 33),
                initializer_token_to_receive_account_pubkey: Key::read(src, 65),
                expected_amount: read_u64(src, 97),
            },
        )
    }

    /// Reads an initialized record of exactly the fixed width.
    pub fn unpack(src: &[u8]) -> (r: Result<Escrow, EscrowError>)
        ensures
            r == Escrow::decoded(src@),
    {
        let r = match Escrow::unpack_unchecked(src) {
            Ok(r) => r,
            Err(e) => return Err(e),
        };
        if !r.is_initialized {
            return Err(EscrowError::UninitializedAccount);
        }
        Ok(r)
    }

    /// The fixed-width bytes of the record.
    pub fn pack(&self) -> (r: Vec<u8>)
        ensures
            r@ == self.encoding(),
            r@.len() == SWAP_RECORD_LEN,
    {
        let mut r: Vec<u8> = Vec::new();
        r.push(if self.is_initialized { 1u8 } else { 0u8 });
        self.initializer_pubkey.write(&mut r);
        self.temp_token_account_pubkey.write(&mut r);
        self.initializer_token_to_receive_account_pubkey.write(&mut r);
        write_u64(&mut r, self.expected_amount);
        proof {
            lemma_key_bytes(self.initializer_pubkey);
            lemma_key_bytes(self.temp_token_account_pubkey);
            lemma_key_bytes(self.initializer_token_to_receive_account_pubkey);
            lemma_auto_spec_u64_to_from_le_bytes();
        }
        assert(r@ =~= self.encoding());
        r
    }
}

/// Decoding the bytes of a vault record gives the record back.
pub proof fn lemma_vault_record_round_trip(r: EscrowState)
    ensures
        EscrowState::decoded_unchecked(r.encoding()) == Ok::<EscrowState, EscrowError>(r),
{
    let s = r.encoding();
    lemma_key_bytes(r.token_mint);
    lemma_key_bytes(r.escrow_vault_account);
    lemma_auto_spec_u64_to_from_le_bytes();
    assert(s.subrange(1, 33) =~= r.token_mint.bytes());
    assert(s.subrange(33, 65) =~= r.escrow_vault_account.bytes());
    assert(s.subrange(65, 73) =~= spec_u64_to_le_bytes(r.total_deposited));
}

/// Decoding the bytes of a swap record gives the record back.
pub proof fn lemma_swap_record_round_trip(r: Escrow)
    ensures
        Escrow::decoded_unchecked(r.encoding()) == Ok::<Escrow, EscrowError>(r),
{
    let s = r.encoding();
    lemma_key_bytes(r.initializer_pubkey);
    lemma_key_bytes(r.temp_token_account_pubkey);
    lemma_key_bytes(r.initializer_token_to_receive_account_pubkey);
    lemma_auto_spec_u64_to_from_le_bytes();
    assert(s.subrange(1, 33) =~= r.initializer_pubkey.bytes());
    assert(s.subrange(33, 65) =~= r.temp_token_account_pubkey.bytes());
    assert(s.subrange(65, 97) =~= r.initializer_token_to_receive_account_pubkey.bytes());
    assert(s.subrange(97, 105) =~= spec_u64_to_le_bytes(r.expected_amount));
}

} // verus!
