//! A token faucet ledger: a fixed grant of one asset to any requesting
//! identity, at most once per cooldown window, with running totals kept per
//! identity and for the faucet as a whole.
//!
//! The crate holds the state machine only. Proof of control over an
//! identity, the ledger clock and durable storage belong to the embedding
//! system: every operation takes the identity that was authenticated and the
//! current ledger time as arguments, and works on a [`TokenFaucet`] value
//! that the embedding system loads and persists.

pub mod claims;
pub mod config;
pub mod error;
pub mod faucet;
pub mod identity;
pub mod laws;
pub mod model;

pub use claims::{ClaimStore, UserClaim, UserClaimRegistry};
pub use config::FaucetConfig;
pub use error::FaucetError;
pub use faucet::TokenFaucet;
pub use identity::Identity;
