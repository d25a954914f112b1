//! Verified core of a REST gateway to a distributed ledger.
//!
//! The library covers the pieces of the gateway that carry real logic:
//! the account codec (SS58 strings to ledger account identities), the
//! key-material resolver (seed phrases to signing capabilities), call
//! descriptors with their parameter validation, classification of a
//! submission's lifecycle notifications into a final outcome, and the
//! extraction of a typed event from a finalized block's event log.
//! Network transport, HTTP routing and the identity-provider protocol
//! stay outside; they hand this library plain values and take plain
//! values back.

pub mod account;
pub mod base58;
pub mod bignum;
pub mod call;
pub mod dex;
pub mod error;
pub mod escrow;
pub mod event;
pub mod keys;
pub mod outcome;
pub mod ss58;
pub mod user;
pub mod util;
