//! The errors an instruction can fail with.
use vstd::prelude::*;

verus! {

/// Why an instruction was refused. Every error aborts the whole instruction.
#[derive(Clone, Copy, Debug, PartialEq, Eq, Structural)]
pub enum EscrowError {
    /// The instruction bytes are empty, carry an unknown tag, or are too short.
    InvalidInstruction,
    /// The audit payload is not exactly the fixed record width.
    InvalidInstructionData,
    /// Fewer accounts were supplied than the instruction reads.
    NotEnoughAccountKeys,
    /// The initiating party did not sign.
    MissingSignature,
    /// An account is not owned by the program it must belong to.
    IncorrectProgramOwner,
    /// Account data is malformed, or an account is not the one the protocol expects.
    InvalidAccountData,
    /// A per-sequence audit record address is not the derived one.
    InvalidArgument,
    /// A record that must be fresh is already initialized.
    AlreadyInitialized,
    /// A record that must exist is not initialized.
    UninitializedAccount,
    /// The escrow account does not hold the minimum balance for permanent retention.
    NotRentExempt,
    /// The amount the taker expects is not what the holding account holds.
    ExpectedAmountMismatch,
    /// The asset type of a record or vault differs from the one supplied.
    MintMismatch,
    /// A checked addition overflowed.
    AmountOverflow,
    /// A withdrawal asks for more than has been deposited.
    InsufficientAmount,
    /// A derived authority address does not match, or none can be derived.
    InvalidSeeds,
}

} // verus!
