//! Custody ledger: an administrative registry (the legate), one vault per
//! owner (the centurion) and one sub-vault per asset held in a vault (a
//! testudo).
//!
//! Every operation is a function from plain values to plain values. Balances
//! that an outside ledger holds are read from snapshots, and what has to be
//! moved on that ledger is handed back as an ordered list of movements for the
//! caller to carry out.

pub mod accounts;
pub mod calls;
pub mod custom_accounts;
pub mod derivation;
pub mod errors;
pub mod fees;
pub mod guard;
pub mod instructions;
pub mod laws;
pub mod pubkey;

pub use accounts::{Account, AssetRef, Mint, Signer, TokenAccount};
pub use custom_accounts::centurion::{Centurion, TestudoData};
pub use custom_accounts::legate::{Legate, TestudoTokenWhitelist};
pub use custom_accounts::testudo::Testudo;
pub use errors::ErrorCode;
pub use pubkey::Pubkey;
