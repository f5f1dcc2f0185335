//! Instruction decoding: a tag byte followed by a little-endian `u64` amount.
use crate::codec::{read_u64, u64_at};
use crate::error::EscrowError;
use vstd::prelude::*;
use vstd::slice::slice_subrange;

verus! {

/// The operations of the deposit/withdraw vault.
#[derive(Clone, Copy, Debug, PartialEq, Eq, Structural)]
pub enum EscrowInstruction {
    /// Tag 0: move `amount` from the depositor into the vault.
    Deposit { amount: u64 },
    /// Tag 1: move `amount` out of the vault to the withdrawer.
    Withdraw { amount: u64 },
}

/// The operations of the two-party swap.
#[derive(Clone, Copy, Debug, PartialEq, Eq, Structural)]
pub enum SwapInstruction {
    /// Tag 0: open an escrow that expects `amount` in return.
    InitEscrow { amount: u64 },
    /// Tag 1: take the escrow, expecting `amount` in the holding account.
    Exchange { amount: u64 },
}

/// The amount carried by an instruction payload (the bytes after the tag).
pub open spec fn amount_of(rest: Seq<u8>) -> Result<u64, EscrowError> {
    if rest.len() < 8 {
        Err(EscrowError::InvalidInstruction)
    } else {
        Ok(u64_at(rest, 0))
    }
}

/// The tag byte and the amount of an instruction buffer: tag 0 or 1, then at
/// least eight bytes of amount.
pub open spec fn tagged_amount(input: Seq<u8>) -> Result<(u8, u64), EscrowError> {
    if input.len() == 0 || input[0] > 1 || input.len() < 9 {
        Err(EscrowError::InvalidInstruction)
    } else {
        Ok((input[0], u64_at(input, 1)))
    }
}

impl EscrowInstruction {
    /// What a vault instruction buffer decodes to.
    pub open spec fn decoded(input: Seq<u8>) -> Result<EscrowInstruction, EscrowError> {
        match tagged_amount(input) {
            Ok((tag, amount)) => if tag == 0 {
                Ok(EscrowInstruction::Deposit { amount })
            } else {
                Ok(EscrowInstruction::Withdraw { amount })
            },
            Err(e) => Err(e),
        }
    }

    /// Decodes a vault instruction.
    pub fn unpack(input: &[u8]) -> (r: Result<EscrowInstruction, EscrowError>)
        ensures
            r == EscrowInstruction::decoded(input@),
    {
        let (tag, amount) = match decode_tagged(input) {
            Ok(p) => p,
            Err(e) => return Err(e),
        };
        if tag == 0 {
            Ok(EscrowInstruction::Deposit { amount })
        } else {
            Ok(EscrowInstruction::Withdraw { amount })
        }
    }

    /// Decodes the amount that follows the tag.
    pub fn unpack_amount(input: &[u8]) -> (r: Result<u64, EscrowError>)
        ensures
            r == amount_of(input@),
    {
        if input.len() < 8 {
            return Err(EscrowError::InvalidInstruction);
        }
        Ok(read_u64(input, 0))
    }
}

impl SwapInstruction {
    /// What a swap instruction buffer decodes to.
    pub open spec fn decoded(input: Seq<u8>) -> Result<SwapInstruction, EscrowError> {
        match tagged_amount(input) {
            Ok((tag, amount)) => if tag == 0 {
                Ok(SwapInstruction::InitEscrow { amount })
            } else {
                Ok(SwapInstruction::Exchange { amount })
            },
            Err(e) => Err(e),
        }
    }

    /// Decodes a swap instruction.
    pub fn unpack(input: &[u8]) -> (r: Result<SwapInstruction, EscrowError>)
        ensures
            r == SwapInstruction::decoded(input@),
    {
        let (tag, amount) = match decode_tagged(input) {
            Ok(p) => p,
            Err(e) => return Err(e),
        };
        if tag == 0 {
            Ok(SwapInstruction::InitEscrow { amount })
        } else {
            Ok(SwapInstruction::Exchange { amount })
        }
    }
}

/// Splits off the tag and decodes the amount after it.
fn decode_tagged(input: &[u8]) -> (r: Result<(u8, u64), EscrowError>)
    ensures
        r == tagged_amount(input@),
{
    let n = input.len();
    if n == 0 {
        return Err(EscrowError::InvalidInstruction);
    }
    let tag = input[0];
    if tag > 1 {
        return Err(EscrowError::InvalidInstruction);
    }
    let rest = slice_subrange(input, 1, n);
    let amount = match EscrowInstruction::unpack_amount(rest) {
        Ok(a) => a,
        Err(e) => return Err(e),
    };
    assert(rest@.subrange(0, 8) =~= input@.subrange(1, 9));
    Ok((tag, amount))
}

} // verus!
