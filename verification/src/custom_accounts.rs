//! What the ledger stores: the registry, the vaults and their sub-vaults.

pub mod centurion;
pub mod legate;
pub mod testudo;
