use vstd::prelude::*;
use crate::pubkey::Pubkey;

verus! {

/// A sub-vault: the holding account of one vault for one asset. Its balance is
/// the one that the typed-asset service reports; no copy of it is kept here.
#[derive(Clone, Copy, Debug, PartialEq, Eq)]
pub struct Testudo {
    /// Where the sub-vault lives: derived from the vault's address and the
    /// asset's identity.
    pub key: Pubkey,
    /// The vault that disposes of the sub-vault.
    pub owning_centurion: Pubkey,
    /// The asset that the sub-vault holds.
    pub mint: Pubkey,
    /// The balance that the typed-asset service reports.
    pub amount: u64,
}

} // verus!
