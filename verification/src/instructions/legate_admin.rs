//! Changing the registry, on the word of its authority. Every change that is
//! accepted is stamped with the time.

use vstd::prelude::*;
use crate::accounts::{Account, Signer};
use crate::custom_accounts::legate::{Legate, TestudoTokenWhitelist};
use crate::errors::ErrorCode;
use crate::fees::BASIS_POINTS;
use crate::guard::{admin_denied, check_admin, or_else};
use crate::pubkey::Pubkey;

verus! {

/// The storage of a new registry: a header of eight bytes and what the
/// registry stores, with room for fifty lines of the whitelist.
pub const LEGATE_SPACE: u64 = 8 + 4135;

/// What one line of the whitelist takes in storage.
pub const WHITELIST_LINE_SPACE: u64 = 81;

/// The storage that the registry asks for when its whitelist may hold
/// `max_whitelisted_mints` assets: that of a new registry and, on top of it,
/// one line for each of them.
pub open spec fn space_for(max_whitelisted_mints: u16) -> u64 {
    (LEGATE_SPACE + max_whitelisted_mints * WHITELIST_LINE_SPACE) as u64
}

/// What the caller has to add to the registry's account so that it holds the
/// reserve that its storage asks for.
pub open spec fn shortfall(required_reserve: u64, held: u64) -> u64 {
    if required_reserve > held {
        (required_reserve - held) as u64
    } else {
        0
    }
}

/// What the caller has to add to an account that holds `held`, so that it
/// holds `required_reserve`.
pub fn reserve_shortfall(required_reserve: u64, held: u64) -> (r: u64)
    ensures
        r == shortfall(required_reserve, held),
{
    if required_reserve > held {
        required_reserve - held
    } else {
        0
    }
}

/// One change to the registry.
#[allow(inconsistent_fields)]
#[derive(Clone, Debug, PartialEq, Eq)]
pub enum LegateAdminAction {
    /// Hands the registry to another authority.
    UpdateAuthority { new_authority: Pubkey },
    /// Raises the number of vaults that an owner may have.
    UpdateMaxCenturions { new_max: u8 },
    /// Raises the number of sub-vaults that a vault may have.
    UpdateMaxTestudos { new_max: u16 },
    /// Raises the number of assets that the whitelist may hold.
    UpdateMaxWhitelistedMints { new_max: u16 },
    /// Names another treasury.
    UpdateTreasury { new_treasury: Pubkey },
    /// Sets the fee, in basis points: at most 10000, which is the whole.
    UpdateFeePercent { new_percent: u16 },
    /// Puts an asset on the whitelist.
    AddMintToWhitelist { mint_data: TestudoTokenWhitelist },
}

/// The first reason for which a change does not apply to the registry,
/// whoever asks for it. A limit only grows. The fee is at most the whole. An
/// asset is listed once, and only while the whitelist has room.
pub open spec fn action_denied(registry: &Legate, action: &LegateAdminAction) -> Option<ErrorCode> {
    match action {
        LegateAdminAction::UpdateAuthority { new_authority } => None,
        LegateAdminAction::UpdateMaxCenturions { new_max } => if *new_max
            > registry.max_centurions_per_user {
            None
        } else {
            Some(ErrorCode::CannotDecreaseMaxCenturions)
        },
        LegateAdminAction::UpdateMaxTestudos { new_max } => if *new_max
            > registry.max_testudos_per_user {
            None
        } else {
            Some(ErrorCode::CannotUpdateMaxTestudosToLessThanCurrentNumberOfTestudos)
        },
        LegateAdminAction::UpdateMaxWhitelistedMints { new_max } => if *new_max
            > registry.max_whitelisted_mints {
            None
        } else {
            Some(
                ErrorCode::CannotUpdateMaxWhitelistedMintsToLessThanCurrentNumberOfWhitelistedMints,
            )
        },
        LegateAdminAction::UpdateTreasury { new_treasury } => None,
        LegateAdminAction::UpdateFeePercent { new_percent } => if *new_percent <= BASIS_POINTS {
            None
        } else {
            Some(ErrorCode::InvalidFeePercent)
        },
        LegateAdminAction::AddMintToWhitelist { mint_data } => if registry.lists(
            mint_data.token_mint,
        ) {
            Some(ErrorCode::MintAlreadyInList)
        } else if registry.testudo_token_whitelist@.len() >= registry.max_whitelisted_mints {
            Some(ErrorCode::MaxWhitelistedMintsReached)
        } else {
            None
        },
    }
}

/// The registry after a change that applies, at the time `now`.
pub open spec fn applied(
    before: &Legate,
    action: &LegateAdminAction,
    now: u64,
    after: &Legate,
) -> bool {
    match action {
        LegateAdminAction::UpdateAuthority { new_authority } => *after == (Legate {
            authority: *new_authority,
            last_updated: now,
            ..*before
        }),
        LegateAdminAction::UpdateMaxCenturions { new_max } => *after == (Legate {
            max_centurions_per_user: *new_max,
            last_updated: now,
            ..*before
        }),
        LegateAdminAction::UpdateMaxTestudos { new_max } => *after == (Legate {
            max_testudos_per_user: *new_max,
            last_updated: now,
            ..*before
        }),
        LegateAdminAction::UpdateMaxWhitelistedMints { new_max } => *after == (Legate {
            max_whitelisted_mints: *new_max,
            last_updated: now,
            ..*before
        }),
        LegateAdminAction::UpdateTreasury { new_treasury } => *after == (Legate {
            treasury_acc: *new_treasury,
            last_updated: now,
            ..*before
        }),
        LegateAdminAction::UpdateFeePercent { new_percent } => *after == (Legate {
            percent_for_fees: *new_percent,
            last_updated: now,
            ..*before
        }),
        LegateAdminAction::AddMintToWhitelist { mint_data } => {
            &&& after.testudo_token_whitelist@ == before.testudo_token_whitelist@.push(*mint_data)
            &&& after.last_updated == now
            &&& after.same_settings(before)
        },
    }
}

/// No change lowers a limit: a change to one of the three limits applies
/// only where the new value is above the current one, and every other change
/// leaves the three limits as they are.
pub proof fn lemma_limits_only_grow(
    before: Legate,
    action: LegateAdminAction,
    now: u64,
    after: Legate,
)
    requires
        action_denied(&before, &action) is None,
        applied(&before, &action, now, &after),
    ensures
        after.max_centurions_per_user >= before.max_centurions_per_user,
        after.max_testudos_per_user >= before.max_testudos_per_user,
        after.max_whitelisted_mints >= before.max_whitelisted_mints,
        action matches LegateAdminAction::UpdateMaxCenturions { new_max } ==> new_max
            > before.max_centurions_per_user,
        action matches LegateAdminAction::UpdateMaxTestudos { new_max } ==> new_max
            > before.max_testudos_per_user,
        action matches LegateAdminAction::UpdateMaxWhitelistedMints { new_max } ==> new_max
            > before.max_whitelisted_mints,
{
}

/// A change that applies to a registry with no asset listed twice and no
/// more assets than its limit allows leaves such a registry.
pub proof fn lemma_whitelist_stays_well_formed(
    before: Legate,
    action: LegateAdminAction,
    now: u64,
    after: Legate,
)
    requires
        before.wf(),
        action_denied(&before, &action) is None,
        applied(&before, &action, now, &after),
    ensures
        after.wf(),
{
}

/// The storage to which the registry has to grow for a change, if it has to.
pub open spec fn growth(action: &LegateAdminAction) -> Option<u64> {
    match action {
        LegateAdminAction::UpdateMaxWhitelistedMints { new_max } => Some(space_for(*new_max)),
        _ => None,
    }
}

/// Applies one change to a registry. Whether the one who asks may change the
/// registry is for the caller to have settled.
pub fn apply_action(registry: &mut Legate, action: LegateAdminAction, now: u64) -> (r: Result<
    Option<u64>,
    ErrorCode,
>)
    ensures
        r is Ok <==> action_denied(old(registry), &action) is None,
        r matches Err(e) ==> Some(e) == action_denied(old(registry), &action) && *final(registry)
            == *old(registry),
        r matches Ok(grow_to) ==> {
            &&& applied(old(registry), &action, now, final(registry))
            &&& grow_to == growth(&action)
            &&& old(registry).wf() ==> final(registry).wf()
        },
        old(registry).percent_for_fees <= BASIS_POINTS ==> final(registry).percent_for_fees
            <= BASIS_POINTS,
{
    match action {
        LegateAdminAction::UpdateAuthority { new_authority } => {
            registry.authority = new_authority;
            registry.last_updated = now;
            Ok(None)
        },
        LegateAdminAction::UpdateMaxCenturions { new_max } => {
            if new_max <= registry.max_centurions_per_user {
                return Err(ErrorCode::CannotDecreaseMaxCenturions);
            }
            registry.max_centurions_per_user = new_max;
            registry.last_updated = now;
            Ok(None)
        },
        LegateAdminAction::UpdateMaxTestudos { new_max } => {
            if new_max <= registry.max_testudos_per_user {
                return Err(ErrorCode::CannotUpdateMaxTestudosToLessThanCurrentNumberOfTestudos);
            }
            registry.max_testudos_per_user = new_max;
            registry.last_updated = now;
            Ok(None)
        },
        LegateAdminAction::UpdateMaxWhitelistedMints { new_max } => {
            if new_max <= registry.max_whitelisted_mints {
                return Err(
                    ErrorCode::CannotUpdateMaxWhitelistedMintsToLessThanCurrentNumberOfWhitelistedMints,
                );
            }
            registry.max_whitelisted_mints = new_max;
            registry.last_updated = now;
            let lines: u64 = new_max as u64;
            Ok(Some(LEGATE_SPACE + lines * WHITELIST_LINE_SPACE))
        },
        LegateAdminAction::UpdateTreasury { new_treasury } => {
            registry.treasury_acc = new_treasury;
            registry.last_updated = now;
            Ok(None)
        },
        LegateAdminAction::UpdateFeePercent { new_percent } => {
            if new_percent as u64 > BASIS_POINTS {
                return Err(ErrorCode::InvalidFeePercent);
            }
            registry.percent_for_fees = new_percent;
            registry.last_updated = now;
            Ok(None)
        },
        LegateAdminAction::AddMintToWhitelist { mint_data } => {
            if registry.is_whitelisted(&mint_data.token_mint) {
                return Err(ErrorCode::MintAlreadyInList);
            }
            if registry.testudo_token_whitelist.len() >= registry.max_whitelisted_mints as usize {
                return Err(ErrorCode::MaxWhitelistedMintsReached);
            }
            registry.testudo_token_whitelist.push(mint_data);
            registry.last_updated = now;
            Ok(None)
        },
    }
}

/// The accounts of `process_legate_admin`.
#[derive(Clone, Debug, PartialEq, Eq)]
pub struct LegateAdmin {
    pub authority: Signer,
    pub legate: Account<Legate>,
}

/// The first reason for which a change to the registry is refused.
pub open spec fn legate_admin_denied(ctx: &LegateAdmin, action: &LegateAdminAction) -> Option<
    ErrorCode,
> {
    or_else(
        admin_denied(ctx.authority.key, &ctx.legate.data),
        action_denied(&ctx.legate.data, action),
    )
}

/// Changes the registry on the word of its authority. Where the limit of the
/// whitelist is raised, the result is the storage to which the registry's
/// account has to grow.
pub fn process_legate_admin(ctx: &mut LegateAdmin, action: LegateAdminAction, now: u64) -> (r:
    Result<Option<u64>, ErrorCode>)
    ensures
        r is Ok <==> legate_admin_denied(old(ctx), &action) is None,
        r matches Err(e) ==> Some(e) == legate_admin_denied(old(ctx), &action) && *final(ctx)
            == *old(ctx),
        r matches Ok(grow_to) ==> {
            &&& applied(&old(ctx).legate.data, &action, now, &final(ctx).legate.data)
            &&& grow_to == growth(&action)
            &&& old(ctx).legate.data.wf() ==> final(ctx).legate.data.wf()
            &&& *final(ctx) == (LegateAdmin {
                legate: Account { data: final(ctx).legate.data, ..old(ctx).legate },
                ..*old(ctx)
            })
        },
        old(ctx).legate.data.percent_for_fees <= BASIS_POINTS ==> final(ctx).legate.data.percent_for_fees <= BASIS_POINTS,
{
    check_admin(&ctx.authority, &ctx.legate.data)?;
    apply_action(&mut ctx.legate.data, action, now)
}

/// The accounts of `process_update_authority`.
#[derive(Clone, Debug, PartialEq, Eq)]
pub struct UpdateAuthority {
    pub authority: Signer,
    /// The authority to come. Its word is not asked for.
    pub new_authority: Pubkey,
    pub legate: Account<Legate>,
}

/// Hands the registry to `new_authority`, on the word of the authority that
/// it has.
pub fn process_update_authority(ctx: &mut UpdateAuthority, now: u64) -> (r: Result<(), ErrorCode>)
    ensures
        r is Ok <==> admin_denied(old(ctx).authority.key, &old(ctx).legate.data) is None,
        r matches Err(e) ==> Some(e) == admin_denied(old(ctx).authority.key, &old(ctx).legate.data)
            && *final(ctx) == *old(ctx),
        r is Ok ==> *final(ctx) == (UpdateAuthority {
            legate: Account {
                data: Legate {
                    authority: old(ctx).new_authority,
                    last_updated: now,
                    ..old(ctx).legate.data
                },
                ..old(ctx).legate
            },
            ..*old(ctx)
        }),
{
    check_admin(&ctx.authority, &ctx.legate.data)?;
    let named = ctx.new_authority;
    let _ = apply_action(
        &mut ctx.legate.data,
        LegateAdminAction::UpdateAuthority { new_authority: named },
        now,
    )?;
    Ok(())
}

/// The accounts of `process_update_fee_percent`.
#[derive(Clone, Debug, PartialEq, Eq)]
pub struct UpdateFeePercent {
    pub authority: Signer,
    pub legate: Account<Legate>,
}

/// The first reason for which the fee is not set.
pub open spec fn update_fee_percent_denied(ctx: &UpdateFeePercent, new_fee_percent: u16) -> Option<
    ErrorCode,
> {
    if admin_denied(ctx.authority.key, &ctx.legate.data) is Some {
        admin_denied(ctx.authority.key, &ctx.legate.data)
    } else if new_fee_percent > BASIS_POINTS {
        Some(ErrorCode::InvalidFeePercent)
    } else {
        None
    }
}

/// Sets the fee on every amount that moves, in basis points. A fee above
/// 10000, which is the whole, is refused.
pub fn process_update_fee_percent(ctx: &mut UpdateFeePercent, new_fee_percent: u16, now: u64) -> (r:
    Result<(), ErrorCode>)
    ensures
        r is Ok <==> update_fee_percent_denied(old(ctx), new_fee_percent) is None,
        r matches Err(e) ==> Some(e) == update_fee_percent_denied(old(ctx), new_fee_percent)
            && *final(ctx) == *old(ctx),
        r is Ok ==> new_fee_percent <= BASIS_POINTS && *final(ctx) == (UpdateFeePercent {
            legate: Account {
                data: Legate {
                    percent_for_fees: new_fee_percent,
                    last_updated: now,
                    ..old(ctx).legate.data
                },
                ..old(ctx).legate
            },
            ..*old(ctx)
        }),
{
    check_admin(&ctx.authority, &ctx.legate.data)?;
    let _ = apply_action(
        &mut ctx.legate.data,
        LegateAdminAction::UpdateFeePercent { new_percent: new_fee_percent },
        now,
    )?;
    Ok(())
}

/// The accounts of `process_update_treasury`.
#[derive(Clone, Debug, PartialEq, Eq)]
pub struct UpdateTreasury {
    pub authority: Signer,
    pub legate: Account<Legate>,
}

/// Names the treasury to which fees go from now on.
pub fn process_update_treasury(ctx: &mut UpdateTreasury, new_treasury: Pubkey, now: u64) -> (r:
    Result<(), ErrorCode>)
    ensures
        r is Ok <==> admin_denied(old(ctx).authority.key, &old(ctx).legate.data) is None,
        r matches Err(e) ==> Some(e) == admin_denied(old(ctx).authority.key, &old(ctx).legate.data)
            && *final(ctx) == *old(ctx),
        r is Ok ==> *final(ctx) == (UpdateTreasury {
            legate: Account {
                data: Legate {
                    treasury_acc: new_treasury,
                    last_updated: now,
                    ..old(ctx).legate.data
                },
                ..old(ctx).legate
            },
            ..*old(ctx)
        }),
{
    check_admin(&ctx.authority, &ctx.legate.data)?;
    let _ = apply_action(
        &mut ctx.legate.data,
        LegateAdminAction::UpdateTreasury { new_treasury },
        now,
    )?;
    Ok(())
}

/// The accounts of `process_update_max_testudos`.
#[derive(Clone, Debug, PartialEq, Eq)]
pub struct UpdateMaxTestudos {
    pub authority: Signer,
    pub legate: Account<Legate>,
}

/// The first reason for which the limit of sub-vaults per vault is not
/// raised.
pub open spec fn update_max_testudos_denied(ctx: &UpdateMaxTestudos, new_max: u16) -> Option<
    ErrorCode,
> {
    if admin_denied(ctx.authority.key, &ctx.legate.data) is Some {
        admin_denied(ctx.authority.key, &ctx.legate.data)
    } else if new_max <= ctx.legate.data.max_testudos_per_user {
        Some(ErrorCode::CannotUpdateMaxTestudosToLessThanCurrentNumberOfTestudos)
    } else {
        None
    }
}

/// Raises the number of sub-vaults that a vault may have. The new limit must
/// be above the current one.
pub fn process_update_max_testudos(ctx: &mut UpdateMaxTestudos, new_max_testudos: u16, now: u64)
    -> (r: Result<(), ErrorCode>)
    ensures
        r is Ok <==> update_max_testudos_denied(old(ctx), new_max_testudos) is None,
        r matches Err(e) ==> Some(e) == update_max_testudos_denied(old(ctx), new_max_testudos)
            && *final(ctx) == *old(ctx),
        r is Ok ==> *final(ctx) == (UpdateMaxTestudos {
            legate: Account {
                data: Legate {
                    max_testudos_per_user: new_max_testudos,
                    last_updated: now,
                    ..old(ctx).legate.data
                },
                ..old(ctx).legate
            },
            ..*old(ctx)
        }),
{
    check_admin(&ctx.authority, &ctx.legate.data)?;
    let _ = apply_action(
        &mut ctx.legate.data,
        LegateAdminAction::UpdateMaxTestudos { new_max: new_max_testudos },
        now,
    )?;
    Ok(())
}

/// The accounts of `process_update_max_whitelisted_mints`.
#[derive(Clone, Debug, PartialEq, Eq)]
pub struct UpdateMaxWhitelistedMints {
    pub authority: Signer,
    pub legate: Account<Legate>,
}

/// The first reason for which the limit of the whitelist is not raised.
pub open spec fn update_max_whitelisted_mints_denied(
    ctx: &UpdateMaxWhitelistedMints,
    new_max: u16,
) -> Option<ErrorCode> {
    if admin_denied(ctx.authority.key, &ctx.legate.data) is Some {
        admin_denied(ctx.authority.key, &ctx.legate.data)
    } else if new_max <= ctx.legate.data.max_whitelisted_mints {
        Some(ErrorCode::CannotUpdateMaxWhitelistedMintsToLessThanCurrentNumberOfWhitelistedMints)
    } else {
        None
    }
}

/// Raises the number of assets that the whitelist may hold. The new limit
/// must be above the current one. The result is the storage to which the
/// registry's account has to grow.
pub fn process_update_max_whitelisted_mints(
    ctx: &mut UpdateMaxWhitelistedMints,
    new_max_whitelisted_mints: u16,
    now: u64,
) -> (r: Result<u64, ErrorCode>)
    ensures
        r is Ok <==> update_max_whitelisted_mints_denied(old(ctx), new_max_whitelisted_mints)
            is None,
        r matches Err(e) ==> Some(e) == update_max_whitelisted_mints_denied(
            old(ctx),
            new_max_whitelisted_mints,
        ) && *final(ctx) == *old(ctx),
        r matches Ok(grow_to) ==> grow_to == space_for(new_max_whitelisted_mints) && *final(ctx) == (
        UpdateMaxWhitelistedMints {
            legate: Account {
                data: Legate {
                    max_whitelisted_mints: new_max_whitelisted_mints,
                    last_updated: now,
                    ..old(ctx).legate.data
                },
                ..old(ctx).legate
            },
            ..*old(ctx)
        }) && (old(ctx).legate.data.wf() ==> final(ctx).legate.data.wf()),
{
    check_admin(&ctx.authority, &ctx.legate.data)?;
    if new_max_whitelisted_mints <= ctx.legate.data.max_whitelisted_mints {
        return Err(
            ErrorCode::CannotUpdateMaxWhitelistedMintsToLessThanCurrentNumberOfWhitelistedMints,
        );
    }
    ctx.legate.data.max_whitelisted_mints = new_max_whitelisted_mints;
    ctx.legate.data.last_updated = now;
    let lines: u64 = new_max_whitelisted_mints as u64;
    Ok(LEGATE_SPACE + lines * WHITELIST_LINE_SPACE)
}

/// The accounts of `process_add_mint_to_testudo_token_whitelist`.
#[derive(Clone, Debug, PartialEq, Eq)]
pub struct AddMintToTestudoTokenWhitelist {
    pub authority: Signer,
    pub legate: Account<Legate>,
}

/// The first reason for which an asset is not put on the whitelist.
pub open spec fn add_mint_denied(ctx: &AddMintToTestudoTokenWhitelist, mint: Pubkey) -> Option<
    ErrorCode,
> {
    if admin_denied(ctx.authority.key, &ctx.legate.data) is Some {
        admin_denied(ctx.authority.key, &ctx.legate.data)
    } else if ctx.legate.data.lists(mint) {
        Some(ErrorCode::MintAlreadyInList)
    } else if ctx.legate.data.testudo_token_whitelist@.len()
        >= ctx.legate.data.max_whitelisted_mints {
        Some(ErrorCode::MaxWhitelistedMintsReached)
    } else {
        None
    }
}

/// Puts an asset on the whitelist, at its end. An asset that is listed is
/// refused, and so is any asset once the whitelist is full.
pub fn process_add_mint_to_testudo_token_whitelist(
    ctx: &mut AddMintToTestudoTokenWhitelist,
    mint_to_add: TestudoTokenWhitelist,
    now: u64,
) -> (r: Result<(), ErrorCode>)
    ensures
        r is Ok <==> add_mint_denied(old(ctx), mint_to_add.token_mint) is None,
        r matches Err(e) ==> Some(e) == add_mint_denied(old(ctx), mint_to_add.token_mint) && *final(ctx) == *old(ctx),
        r is Ok ==> {
            &&& final(ctx).legate.data.testudo_token_whitelist@ == old(ctx).legate.data.testudo_token_whitelist@.push(mint_to_add)
            &&& final(ctx).legate.data.last_updated == now
            &&& final(ctx).legate.data.same_settings(&old(ctx).legate.data)
            &&& final(ctx).legate.data.lists(mint_to_add.token_mint)
            &&& final(ctx).legate.data.testudo_token_whitelist@.len() <= old(ctx).legate.data.max_whitelisted_mints
            &&& old(ctx).legate.data.wf() ==> final(ctx).legate.data.wf()
            &&& *final(ctx) == (AddMintToTestudoTokenWhitelist {
                legate: Account { data: final(ctx).legate.data, ..old(ctx).legate },
                ..*old(ctx)
            })
        },
{
    check_admin(&ctx.authority, &ctx.legate.data)?;
    let ghost mint = mint_to_add.token_mint;
    let ghost before = ctx.legate.data.testudo_token_whitelist@;
    let _ = apply_action(
        &mut ctx.legate.data,
        LegateAdminAction::AddMintToWhitelist { mint_data: mint_to_add },
        now,
    )?;
    proof {
        let after = ctx.legate.data.testudo_token_whitelist@;
        assert(after[before.len() as int].token_mint == mint);
    }
    Ok(())
}

} // verus!
