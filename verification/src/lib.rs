//! Delegated spending vaults for ephemeral identities.
//!
//! A vault grants a short-lived, auto-generated identity a bounded right to
//! spend from an owner's balance. The crate verifies the ledger state machine
//! (deposits, trades, revocation, expiry cleanup), the delegation rules, the
//! session custodian that seals ephemeral key material, the security gates
//! (rate limiting, anomaly detection, device fingerprints), the auto top-up
//! planner, and the vault activity monitor.

pub mod assoc;
pub mod custodian;
pub mod delegation;
pub mod errors;
pub mod gateway;
pub mod ledger;
pub mod models;
pub mod monitor;
pub mod planner;
pub mod primitives;
pub mod security;
pub mod signer;
