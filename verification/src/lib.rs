//! A thin client layer for building, signing and submitting token
//! transactions against a blockchain node.
//!
//! The library models addresses, signatures and instructions as plain
//! byte values, builds complete transaction plans (instruction list plus
//! required signer set) for the standard fungible-token operations, and
//! wraps the result of a submitted transaction together with its
//! signatures. The network round trips themselves (fetching a recent
//! block hash, querying rent-exempt minimums, submitting a transaction)
//! are left to the embedding application.

pub mod context;
pub mod error;
pub mod instructions;
pub mod plans;
pub mod types;

pub use context::TxCtx;
pub use error::ClientError;
pub use error::ClientResult;
pub use instructions::AccountMeta;
pub use instructions::Ix;
pub use instructions::get_associated_token_address;
pub use plans::TxPlan;
pub use types::Address;
pub use types::Signature;
