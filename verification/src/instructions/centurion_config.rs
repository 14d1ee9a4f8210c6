//! Changing what a vault stores about its owner's recovery.

use vstd::prelude::*;
use crate::accounts::{Account, Signer};
use crate::custom_accounts::centurion::Centurion;
use crate::errors::ErrorCode;
use crate::guard::{check_owner_and_unlock, unlock_denied};
use crate::pubkey::Pubkey;

verus! {

/// The accounts of `process_update_back_up_account`.
#[derive(Clone, Debug, PartialEq, Eq)]
pub struct UpdateBackUpAccount {
    pub authority: Signer,
    /// The holder of the unlock key.
    pub valid_signer_of_password: Signer,
    pub centurion: Account<Centurion>,
}

/// Names the backup identity of the vault, on the word of the owner and of
/// the unlock key. The one named before, if any, has no say from then on.
pub fn process_update_back_up_account(
    ctx: &mut UpdateBackUpAccount,
    backup_account: Pubkey,
    now: u64,
) -> (r: Result<(), ErrorCode>)
    ensures
        r is Ok <==> unlock_denied(
            old(ctx).authority.key,
            old(ctx).valid_signer_of_password.key,
            &old(ctx).centurion.data,
        ) is None,
        r matches Err(e) ==> Some(e) == unlock_denied(
            old(ctx).authority.key,
            old(ctx).valid_signer_of_password.key,
            &old(ctx).centurion.data,
        ) && *final(ctx) == *old(ctx),
        r is Ok ==> *final(ctx) == (UpdateBackUpAccount {
            centurion: Account {
                data: Centurion {
                    backup_owner: Some(backup_account),
                    last_accessed: now,
                    ..old(ctx).centurion.data
                },
                ..old(ctx).centurion
            },
            ..*old(ctx)
        }),
{
    check_owner_and_unlock(&ctx.authority, &ctx.valid_signer_of_password, &ctx.centurion.data)?;
    ctx.centurion.data.backup_owner = Some(backup_account);
    ctx.centurion.data.last_accessed = now;
    Ok(())
}

} // verus!
