//! Accounts of the asset-transfer program, read through its own decoder.
use crate::codec::u64_at;
use crate::error::EscrowError;
use crate::key::Key;
use solana_program::program_error::ProgramError;
use solana_program::program_pack::Pack;
use vstd::prelude::*;

verus! {

/// The byte width of an asset-transfer account.
pub const TOKEN_ACCOUNT_LEN: usize = 165;

/// What the engine reads of an asset-transfer account.
#[derive(Clone, Copy, Debug, PartialEq, Eq, Structural)]
pub struct TokenAccount {
    /// The asset type the account holds.
    pub mint: Key,
    /// The key that controls the account.
    pub owner: Key,
    /// The balance.
    pub amount: u64,
}

/// The four-byte tag of an optional field at `at` is 0 (absent) or 1 (present).
pub open spec fn option_tag_ok(d: Seq<u8>, at: int) -> bool {
    d[at] <= 1 && d[at + 1] == 0 && d[at + 2] == 0 && d[at + 3] == 0
}

/// What an asset-transfer account's data decodes to: 165 bytes with
/// well-formed optional fields (delegate at 72, native reserve at 109, close
/// authority at 129) and a state byte (at 108) of 1 (initialized) or 2
/// (frozen). The mint is at 0, the owner at 32 and the balance at 64.
pub open spec fn token_account_decoded(d: Seq<u8>) -> Result<TokenAccount, EscrowError> {
    if d.len() != TOKEN_ACCOUNT_LEN || !option_tag_ok(d, 72) || d[108] > 2 || !option_tag_ok(d, 109)
        || !option_tag_ok(d, 129) {
        Err(EscrowError::InvalidAccountData)
    } else if d[108] == 0 {
        Err(EscrowError::UninitializedAccount)
    } else {
        Ok(
            TokenAccount {
                mint: Key::from_seq(d.subrange(0, 32)),
                owner: Key::from_seq(d.subrange(32, 64)),
                amount: u64_at(d, 64),
            },
        )
    }
}

/// The 32 bytes of the asset-transfer program's identity.
pub open spec fn token_program_id_bytes() -> Seq<u8> {
    seq![
        6u8, 221, 246, 225, 215, 101, 161, 147, 217, 203, 225, 70, 206, 235, 121, 172,
        28, 180, 133, 237, 95, 91, 55, 145, 58, 140, 245, 133, 126, 255, 0, 169,
    ]
}

/// The asset-transfer program's identity.
pub open spec fn token_program_key() -> Key {
    Key::from_seq(token_program_id_bytes())
}

/// Relies on spl_token's `id()`: the program's fixed identity.
#[verifier::external_body]
fn spl_token_id() -> (r: [u8; 32])
    ensures
        r@ == token_program_id_bytes(),
{
    spl_token::id().to_bytes()
}

/// Relies on spl_token's `Account::unpack`: it refuses data that is not 165
/// bytes, or whose optional-field tags or state byte are out of range, with
/// `InvalidAccountData`, then an uninitialized account with
/// `UninitializedAccount`; otherwise it reads mint, owner and balance at their
/// offsets.
#[verifier::external_body]
fn spl_token_unpack(data: &[u8]) -> (r: Result<([u8; 32], [u8; 32], u64), EscrowError>)
    ensures
        token_account_decoded(data@) == match r {
            Ok((m, o, a)) => Ok(
                TokenAccount { mint: Key::from_seq(m@), owner: Key::from_seq(o@), amount: a },
            ),
            Err(e) => Err(e),
        },
{
    match spl_token::state::Account::unpack(data) {
        Ok(a) => Ok((a.mint.to_bytes(), a.owner.to_bytes(), a.amount)),
        Err(ProgramError::UninitializedAccount) => Err(EscrowError::UninitializedAccount),
        Err(_) => Err(EscrowError::InvalidAccountData),
    }
}

/// The asset-transfer program's identity.
pub fn token_program_id() -> (r: Key)
    ensures
        r == token_program_key(),
{
    Key::from_array(&spl_token_id())
}

impl TokenAccount {
    /// Decodes an asset-transfer account.
    pub fn unpack(data: &[u8]) -> (r: Result<TokenAccount, EscrowError>)
        ensures
            r == token_account_decoded(data@),
    {
        match spl_token_unpack(data) {
            Ok((m, o, a)) => Ok(
                TokenAccount { mint: Key::from_array(&m), owner: Key::from_array(&o), amount: a },
            ),
            Err(e) => Err(e),
        }
    }
}

} // verus!
