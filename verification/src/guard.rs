//! The authorization guard: which proofs an operation must carry, and the
//! first reason for which a request is turned away.
//!
//! | operation                                   | proofs                  |
//! |---------------------------------------------|-------------------------|
//! | creating or closing a sub-vault             | owner                   |
//! | creating a vault, depositing                | owner                   |
//! | withdrawing, swapping, changing the backup, | owner and unlock key    |
//! | closing a vault                             |                         |
//! | recovering to the backup identity           | backup identity         |
//! | changing the registry                       | registry authority      |
//!
//! The unlock key is a second factor beside the owner's key. What leaves a
//! sub-vault when it is closed goes to the owner's own holding account, and
//! the owner's word is enough for it. The recovery path asks for neither
//! proof of the owner: it is there for the day on which the owner's keys are
//! lost.

use vstd::prelude::*;
use crate::accounts::{Account, Signer, TokenAccount};
use crate::custom_accounts::centurion::{is_first_line, line_of, Centurion};
use crate::custom_accounts::testudo::Testudo;
use crate::custom_accounts::legate::Legate;
use crate::errors::ErrorCode;
use crate::pubkey::Pubkey;

verus! {

/// Why `authority` is not taken for the owner of `vault`, if it is not.
pub open spec fn owner_denied(authority: Pubkey, vault: &Centurion) -> Option<ErrorCode> {
    if !vault.is_initialized {
        Some(ErrorCode::CenturionNotInitialized)
    } else if vault.authority != authority {
        Some(ErrorCode::InvalidAuthority)
    } else {
        None
    }
}

/// Why `authority` and `unlock` together may not move what `vault` holds, if
/// they may not.
pub open spec fn unlock_denied(authority: Pubkey, unlock: Pubkey, vault: &Centurion) -> Option<
    ErrorCode,
> {
    if owner_denied(authority, vault) is Some {
        owner_denied(authority, vault)
    } else if vault.pubkey_to_password != unlock {
        Some(ErrorCode::InvalidPasswordSignature)
    } else {
        None
    }
}

/// Why `backup` may not recover what `vault` holds, if it may not.
pub open spec fn backup_denied(backup: Pubkey, vault: &Centurion) -> Option<ErrorCode> {
    if !vault.is_initialized {
        Some(ErrorCode::CenturionNotInitialized)
    } else {
        match vault.backup_owner {
            None => Some(ErrorCode::NoBackupAccountStored),
            Some(stored) => if stored != backup {
                Some(ErrorCode::InvalidBackupAccount)
            } else {
                None
            },
        }
    }
}

/// Why `authority` may not change `registry`, if it may not.
pub open spec fn admin_denied(authority: Pubkey, registry: &Legate) -> Option<ErrorCode> {
    if !registry.is_initialized {
        Some(ErrorCode::LegateNotInitialized)
    } else if registry.authority != authority {
        Some(ErrorCode::InvalidAuthority)
    } else {
        None
    }
}

/// Why fees cannot be routed by `registry` to `treasury`, if they cannot.
pub open spec fn treasury_denied(treasury: Pubkey, registry: &Legate) -> Option<ErrorCode> {
    if !registry.is_initialized {
        Some(ErrorCode::LegateNotInitialized)
    } else if registry.treasury_acc != treasury {
        Some(ErrorCode::InvalidTreasuryAccount)
    } else {
        None
    }
}

/// Why `account` is not the holding account of `owner` for `mint`, if it is
/// not.
pub open spec fn holding_denied(account: TokenAccount, owner: Pubkey, mint: Pubkey) -> Option<
    ErrorCode,
> {
    if account.mint != mint {
        Some(ErrorCode::InvalidTokenMint)
    } else if account.owner != owner {
        Some(ErrorCode::InvalidATA)
    } else {
        None
    }
}

/// The first of two reasons, where there is one.
pub open spec fn or_else(first: Option<ErrorCode>, second: Option<ErrorCode>) -> Option<ErrorCode> {
    if first is Some {
        first
    } else {
        second
    }
}

/// A verdict of the guard as the result of an operation.
pub open spec fn verdict(denied: Option<ErrorCode>) -> Result<(), ErrorCode> {
    match denied {
        None => Ok(()),
        Some(e) => Err(e),
    }
}

/// Admits the owner of an initialized vault.
pub fn check_owner(authority: &Signer, vault: &Centurion) -> (r: Result<(), ErrorCode>)
    ensures
        r == verdict(owner_denied(authority.key, vault)),
{
    if !vault.is_initialized {
        Err(ErrorCode::CenturionNotInitialized)
    } else if vault.authority != authority.key {
        Err(ErrorCode::InvalidAuthority)
    } else {
        Ok(())
    }
}

/// Admits the owner of an initialized vault who also presents the unlock key.
pub fn check_owner_and_unlock(authority: &Signer, unlock: &Signer, vault: &Centurion) -> (r:
    Result<(), ErrorCode>)
    ensures
        r == verdict(unlock_denied(authority.key, unlock.key, vault)),
{
    match check_owner(authority, vault) {
        Err(e) => Err(e),
        Ok(()) => {
            if vault.pubkey_to_password != unlock.key {
                Err(ErrorCode::InvalidPasswordSignature)
            } else {
                Ok(())
            }
        },
    }
}

/// Admits the backup identity that an initialized vault stores.
pub fn check_backup(backup: &Signer, vault: &Centurion) -> (r: Result<(), ErrorCode>)
    ensures
        r == verdict(backup_denied(backup.key, vault)),
{
    if !vault.is_initialized {
        return Err(ErrorCode::CenturionNotInitialized);
    }
    match vault.backup_owner {
        None => Err(ErrorCode::NoBackupAccountStored),
        Some(stored) => {
            if stored != backup.key {
                Err(ErrorCode::InvalidBackupAccount)
            } else {
                Ok(())
            }
        },
    }
}

/// Admits the authority of an initialized registry.
pub fn check_admin(authority: &Signer, registry: &Legate) -> (r: Result<(), ErrorCode>)
    ensures
        r == verdict(admin_denied(authority.key, registry)),
{
    if !registry.is_initialized {
        Err(ErrorCode::LegateNotInitialized)
    } else if registry.authority != authority.key {
        Err(ErrorCode::InvalidAuthority)
    } else {
        Ok(())
    }
}

/// Admits the treasury that an initialized registry names.
pub fn check_treasury(treasury: &Pubkey, registry: &Legate) -> (r: Result<(), ErrorCode>)
    ensures
        r == verdict(treasury_denied(*treasury, registry)),
{
    if !registry.is_initialized {
        Err(ErrorCode::LegateNotInitialized)
    } else if registry.treasury_acc != *treasury {
        Err(ErrorCode::InvalidTreasuryAccount)
    } else {
        Ok(())
    }
}

/// Admits the holding account of `owner` for `mint`.
pub fn check_holding(account: &TokenAccount, owner: &Pubkey, mint: &Pubkey) -> (r: Result<
    (),
    ErrorCode,
>)
    ensures
        r == verdict(holding_denied(*account, *owner, *mint)),
{
    if account.mint != *mint {
        Err(ErrorCode::InvalidTokenMint)
    } else if account.owner != *owner {
        Err(ErrorCode::InvalidATA)
    } else {
        Ok(())
    }
}

/// Why a sub-vault is not bound to `mint` and to the vault at `vault`, if it
/// is not.
pub open spec fn binding_denied(testudo: Testudo, vault: Pubkey, mint: Pubkey) -> Option<
    ErrorCode,
> {
    if testudo.mint != mint {
        Some(ErrorCode::InvalidTokenMint)
    } else if testudo.owning_centurion != vault {
        Some(ErrorCode::InvalidATA)
    } else {
        None
    }
}

/// Admits the sub-vault that is bound to `mint` and to the vault at `vault`.
pub fn check_binding(testudo: &Testudo, vault: &Pubkey, mint: &Pubkey) -> (r: Result<
    (),
    ErrorCode,
>)
    ensures
        r is Ok <==> binding_denied(*testudo, *vault, *mint) is None,
        r matches Err(e) ==> Some(e) == binding_denied(*testudo, *vault, *mint),
{
    if testudo.mint != *mint {
        Err(ErrorCode::InvalidTokenMint)
    } else if testudo.owning_centurion != *vault {
        Err(ErrorCode::InvalidATA)
    } else {
        Ok(())
    }
}

/// The first reason for which a sub-vault is not one of `vault` for `mint`.
pub open spec fn testudo_denied(testudo: Testudo, vault: &Account<Centurion>, mint: Pubkey)
    -> Option<ErrorCode> {
    if testudo.mint != mint {
        Some(ErrorCode::InvalidTokenMint)
    } else if testudo.owning_centurion != vault.key {
        Some(ErrorCode::InvalidATA)
    } else if !vault.data.tracks(mint) {
        Some(ErrorCode::InvalidTokenMint)
    } else if vault.data.testudos@[line_of(vault.data.testudos@, mint)].testudo_pubkey
        != testudo.key {
        Some(ErrorCode::InvalidATA)
    } else {
        None
    }
}

/// Admits the sub-vault that `vault` has on its index for `mint`, and says on
/// which line it stands.
pub fn check_testudo(testudo: &Testudo, vault: &Account<Centurion>, mint: &Pubkey) -> (r: Result<
    usize,
    ErrorCode,
>)
    ensures
        r is Ok <==> testudo_denied(*testudo, vault, *mint) is None,
        r matches Err(e) ==> Some(e) == testudo_denied(*testudo, vault, *mint),
        r matches Ok(line) ==> line == line_of(vault.data.testudos@, *mint) && is_first_line(
            vault.data.testudos@,
            *mint,
            line as int,
        ),
{
    if testudo.mint != *mint {
        return Err(ErrorCode::InvalidTokenMint);
    }
    if testudo.owning_centurion != vault.key {
        return Err(ErrorCode::InvalidATA);
    }
    match vault.data.find_testudo(mint) {
        None => Err(ErrorCode::InvalidTokenMint),
        Some(line) => {
            if vault.data.testudos[line].testudo_pubkey != testudo.key {
                Err(ErrorCode::InvalidATA)
            } else {
                Ok(line)
            }
        },
    }
}

} // verus!
