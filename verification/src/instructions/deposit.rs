//! Putting value into a vault, on the word of its owner. The fee is withheld
//! from what is put in, and the vault is credited with the rest.

use vstd::prelude::*;
use crate::accounts::{Account, AssetRef, Mint, Signer, TokenAccount};
use crate::calls::{lamport_route, route_lamports, route_tokens, token_route, Movement};
use crate::custom_accounts::centurion::{
    count_of, lemma_recorded_keeps_assets, record, recorded, Centurion,
};
use crate::custom_accounts::legate::Legate;
use crate::custom_accounts::testudo::Testudo;
use crate::errors::ErrorCode;
use crate::fees::{fee_computable, split_fee, split_of};
use crate::guard::{
    check_holding, check_owner, check_testudo, check_treasury, holding_denied, or_else,
    owner_denied, testudo_denied, treasury_denied,
};
use crate::pubkey::Pubkey;

verus! {

/// The first reason for which native currency does not enter a vault.
pub open spec fn native_deposit_denied(
    vault: &Account<Centurion>,
    rate_bps: u16,
    from: Signer,
    amount: u64,
) -> Option<ErrorCode> {
    if from.lamports < amount {
        Some(ErrorCode::InsufficientFunds)
    } else if !fee_computable(amount, rate_bps) {
        Some(ErrorCode::ArithmeticOverflow)
    } else if vault.data.lamport_balance + split_of(amount, rate_bps).net > u64::MAX {
        Some(ErrorCode::ArithmeticOverflow)
    } else {
        None
    }
}

/// Puts native currency of `from` into a vault: the fee goes to `treasury`
/// first, and the vault tracks the rest as deposited.
pub fn deposit_native(
    vault: &mut Account<Centurion>,
    rate_bps: u16,
    treasury: Pubkey,
    from: &Signer,
    amount: u64,
    now: u64,
) -> (r: Result<Vec<Movement>, ErrorCode>)
    ensures
        r is Ok <==> native_deposit_denied(old(vault), rate_bps, *from, amount) is None,
        r matches Err(e) ==> Some(e) == native_deposit_denied(old(vault), rate_bps, *from, amount)
            && *final(vault) == *old(vault),
        r matches Ok(plan) ==> {
            &&& plan@ == lamport_route(
                from.key,
                treasury,
                old(vault).key,
                split_of(amount, rate_bps),
            )
            &&& *final(vault) == (Account {
                data: Centurion {
                    lamport_balance: (old(vault).data.lamport_balance + split_of(
                        amount,
                        rate_bps,
                    ).net) as u64,
                    last_accessed: now,
                    ..old(vault).data
                },
                ..*old(vault)
            })
        },
{
    if from.lamports < amount {
        return Err(ErrorCode::InsufficientFunds);
    }
    let split = split_fee(amount, rate_bps)?;
    let balance = match vault.data.lamport_balance.checked_add(split.net) {
        None => {
            return Err(ErrorCode::ArithmeticOverflow);
        },
        Some(balance) => balance,
    };
    vault.data.lamport_balance = balance;
    vault.data.last_accessed = now;
    Ok(route_lamports(from.key, treasury, vault.key, split))
}

/// The first reason for which a typed asset does not enter a sub-vault of
/// the vault.
pub open spec fn token_deposit_denied(
    vault: &Account<Centurion>,
    rate_bps: u16,
    mint: Pubkey,
    from: TokenAccount,
    amount: u64,
) -> Option<ErrorCode> {
    if from.amount < amount {
        Some(ErrorCode::InsufficientFunds)
    } else if !fee_computable(amount, rate_bps) {
        Some(ErrorCode::ArithmeticOverflow)
    } else if vault.data.tracks(mint) && count_of(vault.data.testudos@, mint) + split_of(
        amount,
        rate_bps,
    ).net > u64::MAX {
        Some(ErrorCode::ArithmeticOverflow)
    } else {
        None
    }
}

/// Puts a typed asset from the holding account `from` of `depositor` into a
/// sub-vault of the vault: the fee goes to `treasury_ata` first, and the
/// vault records the rest as held. The depositor signs.
pub fn deposit_tokens(
    vault: &mut Account<Centurion>,
    testudo: &Testudo,
    mint: &Mint,
    rate_bps: u16,
    treasury_ata: Pubkey,
    from: &TokenAccount,
    depositor: Pubkey,
    amount: u64,
    now: u64,
) -> (r: Result<Vec<Movement>, ErrorCode>)
    ensures
        r is Ok <==> token_deposit_denied(old(vault), rate_bps, mint.key, *from, amount) is None,
        r matches Err(e) ==> Some(e) == token_deposit_denied(
            old(vault),
            rate_bps,
            mint.key,
            *from,
            amount,
        ) && *final(vault) == *old(vault),
        r matches Ok(plan) ==> {
            &&& plan@ == token_route(
                from.key,
                treasury_ata,
                testudo.key,
                mint.key,
                depositor,
                mint.decimals,
                split_of(amount, rate_bps),
            )
            &&& final(vault).data.testudos@ == recorded(
                old(vault).data.testudos@,
                mint.key,
                (count_of(old(vault).data.testudos@, mint.key) + split_of(amount, rate_bps).net) as u64,
            )
            &&& final(vault).data.last_accessed == now
            &&& final(vault).data.same_header(&old(vault).data)
            &&& old(vault).data.wf() ==> final(vault).data.wf()
            &&& final(vault).key == old(vault).key
            &&& final(vault).lamports == old(vault).lamports
        },
{
    if from.amount < amount {
        return Err(ErrorCode::InsufficientFunds);
    }
    let split = split_fee(amount, rate_bps)?;
    let line = vault.data.find_testudo(&mint.key);
    match line {
        None => {},
        Some(i) => {
            let count = match vault.data.testudos[i].testudo_token_count.checked_add(split.net) {
                None => {
                    return Err(ErrorCode::ArithmeticOverflow);
                },
                Some(count) => count,
            };
            proof {
                lemma_recorded_keeps_assets(vault.data.testudos@, mint.key, count);
            }
            record(&mut vault.data.testudos, &mint.key, count);
        },
    }
    vault.data.last_accessed = now;
    Ok(route_tokens(from.key, treasury_ata, testudo.key, mint.key, depositor, mint.decimals, split))
}

/// The accounts of `process_deposit_sol`.
#[derive(Clone, Debug, PartialEq, Eq)]
pub struct DepositSol {
    pub authority: Signer,
    pub centurion: Account<Centurion>,
    pub legate: Account<Legate>,
    pub treasury: Pubkey,
}

/// The first reason for which the owner's native currency does not enter the
/// vault.
pub open spec fn deposit_sol_denied(ctx: &DepositSol, amount: u64) -> Option<ErrorCode> {
    or_else(
        owner_denied(ctx.authority.key, &ctx.centurion.data),
        or_else(
            treasury_denied(ctx.treasury, &ctx.legate.data),
            native_deposit_denied(
                &ctx.centurion,
                ctx.legate.data.percent_for_fees,
                ctx.authority,
                amount,
            ),
        ),
    )
}

/// Deposits native currency of the owner into the vault. The owner must hold
/// the amount.
pub fn process_deposit_sol(ctx: &mut DepositSol, amount_in_lamports: u64, now: u64) -> (r: Result<
    Vec<Movement>,
    ErrorCode,
>)
    ensures
        r is Ok <==> deposit_sol_denied(old(ctx), amount_in_lamports) is None,
        r matches Err(e) ==> Some(e) == deposit_sol_denied(old(ctx), amount_in_lamports) && *final(ctx) == *old(ctx),
        r matches Ok(plan) ==> {
            &&& plan@ == lamport_route(
                old(ctx).authority.key,
                old(ctx).treasury,
                old(ctx).centurion.key,
                split_of(amount_in_lamports, old(ctx).legate.data.percent_for_fees),
            )
            &&& *final(ctx) == (DepositSol {
                centurion: Account {
                    data: Centurion {
                        lamport_balance: (old(ctx).centurion.data.lamport_balance + split_of(
                            amount_in_lamports,
                            old(ctx).legate.data.percent_for_fees,
                        ).net) as u64,
                        last_accessed: now,
                        ..old(ctx).centurion.data
                    },
                    ..old(ctx).centurion
                },
                ..*old(ctx)
            })
        },
{
    check_owner(&ctx.authority, &ctx.centurion.data)?;
    check_treasury(&ctx.treasury, &ctx.legate.data)?;
    let rate = ctx.legate.data.percent_for_fees;
    let treasury = ctx.treasury;
    let from = ctx.authority;
    deposit_native(&mut ctx.centurion, rate, treasury, &from, amount_in_lamports, now)
}

/// The accounts of `process_deposit_spl_token`.
#[derive(Clone, Debug, PartialEq, Eq)]
pub struct DepositSplToken {
    pub authority: Signer,
    /// The owner's own holding account for the asset.
    pub authority_ata: TokenAccount,
    pub centurion: Account<Centurion>,
    pub testudo: Testudo,
    pub legate: Account<Legate>,
    pub treasury: Pubkey,
    /// The treasury's holding account for the asset.
    pub treasury_ata: TokenAccount,
    pub mint: Mint,
}

/// The first reason for which the accounts around a sub-vault do not let a
/// typed asset enter it from the holding account `from` of `depositor`. The
/// asset must be on the whitelist and the vault must have a sub-vault for it.
pub open spec fn deposit_accounts_denied(
    vault: &Account<Centurion>,
    registry: &Legate,
    treasury: Pubkey,
    testudo: Testudo,
    mint: Pubkey,
    from: TokenAccount,
    depositor: Pubkey,
    treasury_ata: TokenAccount,
) -> Option<ErrorCode> {
    or_else(
        treasury_denied(treasury, registry),
        or_else(
            if registry.lists(mint) {
                None
            } else {
                Some(ErrorCode::UnsupportedTokenMint)
            },
            or_else(
                testudo_denied(testudo, vault, mint),
                or_else(
                    holding_denied(from, depositor, mint),
                    holding_denied(treasury_ata, treasury, mint),
                ),
            ),
        ),
    )
}

/// Admits the accounts around a sub-vault into which a typed asset is to go.
pub fn check_deposit_accounts(
    vault: &Account<Centurion>,
    registry: &Legate,
    treasury: &Pubkey,
    testudo: &Testudo,
    mint: &Pubkey,
    from: &TokenAccount,
    depositor: &Pubkey,
    treasury_ata: &TokenAccount,
) -> (r: Result<(), ErrorCode>)
    ensures
        r is Ok <==> deposit_accounts_denied(
            vault,
            registry,
            *treasury,
            *testudo,
            *mint,
            *from,
            *depositor,
            *treasury_ata,
        ) is None,
        r matches Err(e) ==> Some(e) == deposit_accounts_denied(
            vault,
            registry,
            *treasury,
            *testudo,
            *mint,
            *from,
            *depositor,
            *treasury_ata,
        ),
{
    check_treasury(treasury, registry)?;
    if !registry.is_whitelisted(mint) {
        return Err(ErrorCode::UnsupportedTokenMint);
    }
    let _ = check_testudo(testudo, vault, mint)?;
    check_holding(from, depositor, mint)?;
    check_holding(treasury_ata, treasury, mint)?;
    Ok(())
}

/// The first reason for which the owner's typed asset does not enter the
/// sub-vault.
pub open spec fn deposit_spl_denied(ctx: &DepositSplToken, amount: u64) -> Option<ErrorCode> {
    or_else(
        owner_denied(ctx.authority.key, &ctx.centurion.data),
        or_else(
            deposit_accounts_denied(
                &ctx.centurion,
                &ctx.legate.data,
                ctx.treasury,
                ctx.testudo,
                ctx.mint.key,
                ctx.authority_ata,
                ctx.authority.key,
                ctx.treasury_ata,
            ),
            token_deposit_denied(
                &ctx.centurion,
                ctx.legate.data.percent_for_fees,
                ctx.mint.key,
                ctx.authority_ata,
                amount,
            ),
        ),
    )
}

/// Deposits a typed asset from the owner's own holding account into the
/// sub-vault that the vault has for it. The holding account must hold the
/// amount.
pub fn process_deposit_spl_token(ctx: &mut DepositSplToken, amount_with_decimals: u64, now: u64)
    -> (r: Result<Vec<Movement>, ErrorCode>)
    ensures
        r is Ok <==> deposit_spl_denied(old(ctx), amount_with_decimals) is None,
        r matches Err(e) ==> Some(e) == deposit_spl_denied(old(ctx), amount_with_decimals)
            && *final(ctx) == *old(ctx),
        r matches Ok(plan) ==> {
            &&& plan@ == token_route(
                old(ctx).authority_ata.key,
                old(ctx).treasury_ata.key,
                old(ctx).testudo.key,
                old(ctx).mint.key,
                old(ctx).authority.key,
                old(ctx).mint.decimals,
                split_of(amount_with_decimals, old(ctx).legate.data.percent_for_fees),
            )
            &&& final(ctx).centurion.data.testudos@ == recorded(
                old(ctx).centurion.data.testudos@,
                old(ctx).mint.key,
                (count_of(old(ctx).centurion.data.testudos@, old(ctx).mint.key) + split_of(
                    amount_with_decimals,
                    old(ctx).legate.data.percent_for_fees,
                ).net) as u64,
            )
            &&& final(ctx).centurion.data.last_accessed == now
            &&& final(ctx).centurion.data.same_header(&old(ctx).centurion.data)
            &&& old(ctx).centurion.data.wf() ==> final(ctx).centurion.data.wf()
            &&& final(ctx).centurion.key == old(ctx).centurion.key
            &&& final(ctx).centurion.lamports == old(ctx).centurion.lamports
            &&& *final(ctx) == (DepositSplToken { centurion: final(ctx).centurion, ..*old(ctx) })
        },
{
    check_owner(&ctx.authority, &ctx.centurion.data)?;
    check_deposit_accounts(
        &ctx.centurion,
        &ctx.legate.data,
        &ctx.treasury,
        &ctx.testudo,
        &ctx.mint.key,
        &ctx.authority_ata,
        &ctx.authority.key,
        &ctx.treasury_ata,
    )?;
    let rate = ctx.legate.data.percent_for_fees;
    let treasury_ata = ctx.treasury_ata.key;
    let from = ctx.authority_ata;
    let depositor = ctx.authority.key;
    let testudo = ctx.testudo;
    let mint = ctx.mint;
    deposit_tokens(
        &mut ctx.centurion,
        &testudo,
        &mint,
        rate,
        treasury_ata,
        &from,
        depositor,
        amount_with_decimals,
        now,
    )
}

/// The accounts that a deposit of a typed asset adds to those of a deposit
/// of native currency.
#[derive(Clone, Copy, Debug, PartialEq, Eq)]
pub struct DepositSpl {
    pub mint: Mint,
    /// The owner's own holding account for the asset.
    pub authority_ata: TokenAccount,
    /// The sub-vault.
    pub testudo_ata: Testudo,
    /// The treasury's holding account for the asset.
    pub treasury_ata: TokenAccount,
}

/// The accounts of `process_deposit`.
#[derive(Clone, Debug, PartialEq, Eq)]
pub struct Deposit {
    pub authority: Signer,
    pub centurion: Account<Centurion>,
    pub legate: Account<Legate>,
    pub treasury: Pubkey,
    /// What is deposited.
    pub asset: AssetRef<DepositSpl>,
}

/// The first reason for which the owner's value does not enter the vault.
pub open spec fn deposit_denied(ctx: &Deposit, amount: u64) -> Option<ErrorCode> {
    or_else(
        owner_denied(ctx.authority.key, &ctx.centurion.data),
        match ctx.asset {
            AssetRef::Native => or_else(
                treasury_denied(ctx.treasury, &ctx.legate.data),
                native_deposit_denied(
                    &ctx.centurion,
                    ctx.legate.data.percent_for_fees,
                    ctx.authority,
                    amount,
                ),
            ),
            AssetRef::Typed(spl) => or_else(
                deposit_accounts_denied(
                    &ctx.centurion,
                    &ctx.legate.data,
                    ctx.treasury,
                    spl.testudo_ata,
                    spl.mint.key,
                    spl.authority_ata,
                    ctx.authority.key,
                    spl.treasury_ata,
                ),
                token_deposit_denied(
                    &ctx.centurion,
                    ctx.legate.data.percent_for_fees,
                    spl.mint.key,
                    spl.authority_ata,
                    amount,
                ),
            ),
        },
    )
}

/// What a deposit asks the surrounding ledger to move.
pub open spec fn deposit_plan(ctx: &Deposit, amount: u64) -> Seq<Movement> {
    match ctx.asset {
        AssetRef::Native => lamport_route(
            ctx.authority.key,
            ctx.treasury,
            ctx.centurion.key,
            split_of(amount, ctx.legate.data.percent_for_fees),
        ),
        AssetRef::Typed(spl) => token_route(
            spl.authority_ata.key,
            spl.treasury_ata.key,
            spl.testudo_ata.key,
            spl.mint.key,
            ctx.authority.key,
            spl.mint.decimals,
            split_of(amount, ctx.legate.data.percent_for_fees),
        ),
    }
}

/// Deposits value of the owner into the vault: native currency, or the typed
/// asset whose accounts are given.
pub fn process_deposit(ctx: &mut Deposit, amount: u64, now: u64) -> (r: Result<
    Vec<Movement>,
    ErrorCode,
>)
    ensures
        r is Ok <==> deposit_denied(old(ctx), amount) is None,
        r matches Err(e) ==> Some(e) == deposit_denied(old(ctx), amount) && *final(ctx) == *old(ctx),
        r matches Ok(plan) ==> {
            &&& plan@ == deposit_plan(old(ctx), amount)
            &&& final(ctx).centurion.data.last_accessed == now
            &&& match old(ctx).asset {
                AssetRef::Native => final(ctx).centurion.data == (Centurion {
                    lamport_balance: (old(ctx).centurion.data.lamport_balance + split_of(
                        amount,
                        old(ctx).legate.data.percent_for_fees,
                    ).net) as u64,
                    last_accessed: now,
                    ..old(ctx).centurion.data
                }),
                AssetRef::Typed(spl) => final(ctx).centurion.data.testudos@ == recorded(
                    old(ctx).centurion.data.testudos@,
                    spl.mint.key,
                    (count_of(old(ctx).centurion.data.testudos@, spl.mint.key) + split_of(
                        amount,
                        old(ctx).legate.data.percent_for_fees,
                    ).net) as u64,
                ) && final(ctx).centurion.data.same_header(&old(ctx).centurion.data),
            }
            &&& old(ctx).centurion.data.wf() ==> final(ctx).centurion.data.wf()
            &&& final(ctx).centurion.key == old(ctx).centurion.key
            &&& final(ctx).centurion.lamports == old(ctx).centurion.lamports
            &&& *final(ctx) == (Deposit { centurion: final(ctx).centurion, ..*old(ctx) })
        },
{
    check_owner(&ctx.authority, &ctx.centurion.data)?;
    let rate = ctx.legate.data.percent_for_fees;
    match ctx.asset {
        AssetRef::Native => {
            check_treasury(&ctx.treasury, &ctx.legate.data)?;
            let treasury = ctx.treasury;
            let from = ctx.authority;
            deposit_native(&mut ctx.centurion, rate, treasury, &from, amount, now)
        },
        AssetRef::Typed(spl) => {
            check_deposit_accounts(
                &ctx.centurion,
                &ctx.legate.data,
                &ctx.treasury,
                &spl.testudo_ata,
                &spl.mint.key,
                &spl.authority_ata,
                &ctx.authority.key,
                &spl.treasury_ata,
            )?;
            let depositor = ctx.authority.key;
            deposit_tokens(
                &mut ctx.centurion,
                &spl.testudo_ata,
                &spl.mint,
                rate,
                spl.treasury_ata.key,
                &spl.authority_ata,
                depositor,
                amount,
                now,
            )
        },
    }
}

} // verus!
