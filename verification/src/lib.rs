//! Verified instruction builders for cross-program swap invocations on Solana.
//!
//! Each protocol module parses the protocol-specific swap data and the account
//! list handed to a swap, lays out the accounts and instruction bytes that the
//! protocol's program expects, and invokes it.
pub mod error;
pub mod bytes;
pub mod cpi;
pub mod runtime;
pub mod protocols;
pub mod router;
