//! Snapshots of what the surrounding ledger holds when an operation starts.
//! The operations read them and never write a balance: what has to move is
//! handed back as movements.

use vstd::prelude::*;
use crate::pubkey::Pubkey;

verus! {

/// An account of this ledger: where it lives, the native currency it holds,
/// and what is stored in it.
#[derive(Clone, Debug, PartialEq, Eq)]
pub struct Account<T> {
    pub key: Pubkey,
    pub lamports: u64,
    pub data: T,
}

/// An identity whose signature accompanies the request: the proof that its
/// holder takes part. The surrounding ledger has checked the signature.
#[derive(Clone, Copy, Debug, PartialEq, Eq)]
pub struct Signer {
    pub key: Pubkey,
    pub lamports: u64,
}

/// A holding account of the typed-asset service: the asset it is bound to,
/// who disposes of it, and the balance that the service reports.
#[derive(Clone, Copy, Debug, PartialEq, Eq)]
pub struct TokenAccount {
    pub key: Pubkey,
    pub mint: Pubkey,
    pub owner: Pubkey,
    pub amount: u64,
}

/// An asset type of the typed-asset service.
#[derive(Clone, Copy, Debug, PartialEq, Eq)]
pub struct Mint {
    pub key: Pubkey,
    pub decimals: u8,
}

/// What an operation moves: native currency, or a typed asset with the
/// accounts that belong to it.
#[derive(Clone, Copy, Debug, PartialEq, Eq)]
pub enum AssetRef<T> {
    Native,
    Typed(T),
}

} // verus!
