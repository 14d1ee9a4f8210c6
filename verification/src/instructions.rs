//! The operations of the ledger.

pub mod account_management;
pub mod centurion_config;
pub mod deposit;
pub mod initial_whitelist;
pub mod legate_admin;
pub mod swap;
pub mod withdraw;
