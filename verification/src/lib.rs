//! Verified core of the Grainlify bounty-escrow contracts: the circuit
//! breaker that guards escrow operations, the per-bounty analytics
//! accumulators, the upgrade multisig and the escrow error codes.
//!
//! Every module keeps its state as plain values; the Soroban contract glue
//! that loads that state from ledger storage, authenticates callers and
//! publishes events lives outside this crate. Accounts are held as their
//! strkeys, symbols as text and hashes as byte arrays; signer lists,
//! approvals and the error log are ordinary vectors, because the ledger's
//! own address, symbol and vector values are handles whose contents live in
//! the host environment and are only reachable through it.
pub mod analytics;
pub mod error_recovery;
pub mod errors;
pub mod multisig;
