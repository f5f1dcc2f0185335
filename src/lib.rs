//! An escrow and settlement engine for an account-based ledger.
//!
//! The engine decodes instructions, checks the accounts a caller supplies,
//! reads and writes the packed escrow records, and plans the nested calls into
//! the asset-transfer and audit-log programs. Every check comes before the
//! first planned call, so a refused instruction plans nothing.
//!
//! The audit log keeps one permanent record per sequence number, at an address
//! derived from that number; both the swap and the vault report to it.

pub mod address;
pub mod codec;
pub mod error;
pub mod instruction;
pub mod key;
pub mod logger;
pub mod settlement;
pub mod state;
pub mod swap;
pub mod token;
pub mod vault;
