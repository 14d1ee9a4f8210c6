//! Taking value out of a vault: to its owner, on the word of the owner and
//! of the unlock key, or to the backup identity, on that identity's word
//! alone. The fee is withheld from every amount that leaves.

use vstd::prelude::*;
use crate::accounts::{Account, AssetRef, Mint, Signer, TokenAccount};
use crate::calls::{lamport_route, route_lamports, route_tokens, token_route, Movement};
use crate::custom_accounts::centurion::{
    count_of, debit, debited, lemma_counts_keep_assets, lemma_recorded_keeps_assets, record,
    recorded, Centurion, TestudoData,
};
use crate::custom_accounts::legate::Legate;
use crate::custom_accounts::testudo::Testudo;
use crate::errors::ErrorCode;
use crate::fees::{fall, fee_computable, split_fee, split_of};
use crate::guard::{
    backup_denied, check_backup, check_holding, check_owner_and_unlock, check_testudo,
    check_treasury, holding_denied, or_else, testudo_denied, treasury_denied, unlock_denied,
};
use crate::pubkey::Pubkey;

verus! {

/// Why a request that is to move something is turned away where it would
/// move nothing.
pub open spec fn nothing_denied(amount: u64) -> Option<ErrorCode> {
    if amount == 0 {
        Some(ErrorCode::InsufficientFunds)
    } else {
        None
    }
}

/// The most native currency that can leave a vault: what its account holds
/// above the reserved minimum.
pub open spec fn withdrawable(held: u64, minimum_reserve: u64) -> u64 {
    fall(held, minimum_reserve)
}

/// The amount of native currency that a withdrawal is about: the one asked
/// for, or all that can leave.
pub open spec fn native_amount(vault: &Account<Centurion>, amount: Option<u64>, minimum_reserve: u64)
    -> u64 {
    match amount {
        Some(a) => a,
        None => withdrawable(vault.lamports, minimum_reserve),
    }
}

/// The first reason for which native currency does not leave a vault. An
/// amount that is asked for must be covered by what can leave and by what the
/// vault tracks; where all is asked for, what the vault tracks is not
/// consulted. An amount of nothing is covered.
pub open spec fn native_denied(
    vault: &Account<Centurion>,
    rate_bps: u16,
    amount: Option<u64>,
    minimum_reserve: u64,
) -> Option<ErrorCode> {
    let a = native_amount(vault, amount, minimum_reserve);
    if a > withdrawable(vault.lamports, minimum_reserve) {
        Some(ErrorCode::InsufficientFunds)
    } else if amount is Some && a > vault.data.lamport_balance {
        Some(ErrorCode::InsufficientFunds)
    } else if !fee_computable(a, rate_bps) {
        Some(ErrorCode::ArithmeticOverflow)
    } else {
        None
    }
}

/// What a vault tracks as deposited once native currency has left it.
pub open spec fn native_balance_after(vault: &Account<Centurion>, amount: Option<u64>) -> u64 {
    match amount {
        Some(a) => fall(vault.data.lamport_balance, a),
        None => 0,
    }
}

/// Takes native currency out of a vault, to `to`: the amount asked for, or
/// all that can leave where none is named. The fee goes to `treasury` first.
pub fn withdraw_native(
    vault: &mut Account<Centurion>,
    rate_bps: u16,
    treasury: Pubkey,
    to: Pubkey,
    amount: Option<u64>,
    minimum_reserve: u64,
    now: u64,
) -> (r: Result<Vec<Movement>, ErrorCode>)
    ensures
        r is Ok <==> native_denied(old(vault), rate_bps, amount, minimum_reserve) is None,
        r matches Err(e) ==> Some(e) == native_denied(old(vault), rate_bps, amount, minimum_reserve)
            && *final(vault) == *old(vault),
        r matches Ok(plan) ==> {
            &&& plan@ == lamport_route(
                old(vault).key,
                treasury,
                to,
                split_of(native_amount(old(vault), amount, minimum_reserve), rate_bps),
            )
            &&& *final(vault) == (Account {
                data: Centurion {
                    lamport_balance: native_balance_after(old(vault), amount),
                    last_accessed: now,
                    ..old(vault).data
                },
                ..*old(vault)
            })
        },
{
    let ceiling: u64 = if vault.lamports >= minimum_reserve {
        vault.lamports - minimum_reserve
    } else {
        0
    };
    let a: u64 = match amount {
        Some(a) => a,
        None => ceiling,
    };
    if a > ceiling {
        return Err(ErrorCode::InsufficientFunds);
    }
    if amount.is_some() && a > vault.data.lamport_balance {
        return Err(ErrorCode::InsufficientFunds);
    }
    let split = split_fee(a, rate_bps)?;
    vault.data.lamport_balance = match amount {
        Some(_) => vault.data.lamport_balance - a,
        None => 0,
    };
    vault.data.last_accessed = now;
    Ok(route_lamports(vault.key, treasury, to, split))
}

/// The amount of a typed asset that a withdrawal is about: the one asked
/// for, or all that the sub-vault holds.
pub open spec fn token_amount(testudo: Testudo, amount: Option<u64>) -> u64 {
    match amount {
        Some(a) => a,
        None => testudo.amount,
    }
}

/// The first reason for which a typed asset does not leave a sub-vault: the
/// sub-vault must hold the amount. An amount of nothing is covered.
pub open spec fn token_denied(testudo: Testudo, rate_bps: u16, amount: Option<u64>) -> Option<
    ErrorCode,
> {
    let a = token_amount(testudo, amount);
    if a > testudo.amount {
        Some(ErrorCode::InsufficientFunds)
    } else if !fee_computable(a, rate_bps) {
        Some(ErrorCode::ArithmeticOverflow)
    } else {
        None
    }
}

/// What the index records once a typed asset has left a sub-vault: less by
/// the amount asked for, or nothing where all was asked for.
pub open spec fn index_after_withdrawal(
    index: Seq<TestudoData>,
    mint: Pubkey,
    amount: Option<u64>,
) -> Seq<TestudoData> {
    match amount {
        Some(a) => debited(index, mint, a),
        None => recorded(index, mint, 0),
    }
}

/// Takes a typed asset out of a sub-vault of the vault, to the holding
/// account `to`: the amount asked for, or all that the sub-vault holds where
/// none is named. The fee goes to `treasury_ata` first. The vault signs.
pub fn withdraw_tokens(
    vault: &mut Account<Centurion>,
    testudo: &Testudo,
    mint: &Mint,
    rate_bps: u16,
    treasury_ata: Pubkey,
    to: Pubkey,
    amount: Option<u64>,
    now: u64,
) -> (r: Result<Vec<Movement>, ErrorCode>)
    ensures
        r is Ok <==> token_denied(*testudo, rate_bps, amount) is None,
        r matches Err(e) ==> Some(e) == token_denied(*testudo, rate_bps, amount) && *final(vault)
            == *old(vault),
        r matches Ok(plan) ==> {
            &&& plan@ == token_route(
                testudo.key,
                treasury_ata,
                to,
                mint.key,
                old(vault).key,
                mint.decimals,
                split_of(token_amount(*testudo, amount), rate_bps),
            )
            &&& final(vault).data.testudos@ == index_after_withdrawal(
                old(vault).data.testudos@,
                mint.key,
                amount,
            )
            &&& final(vault).data.last_accessed == now
            &&& final(vault).data.same_header(&old(vault).data)
            &&& old(vault).data.wf() ==> final(vault).data.wf()
            &&& final(vault).key == old(vault).key
            &&& final(vault).lamports == old(vault).lamports
        },
{
    let a: u64 = match amount {
        Some(a) => a,
        None => testudo.amount,
    };
    if a > testudo.amount {
        return Err(ErrorCode::InsufficientFunds);
    }
    let split = split_fee(a, rate_bps)?;
    proof {
        lemma_counts_keep_assets(vault.data.testudos@, mint.key, a);
        lemma_recorded_keeps_assets(vault.data.testudos@, mint.key, 0);
    }
    match amount {
        Some(_) => debit(&mut vault.data.testudos, &mint.key, a),
        None => record(&mut vault.data.testudos, &mint.key, 0),
    }
    vault.data.last_accessed = now;
    Ok(route_tokens(testudo.key, treasury_ata, to, mint.key, vault.key, mint.decimals, split))
}

/// The accounts of `process_withdraw_sol`.
#[derive(Clone, Debug, PartialEq, Eq)]
pub struct WithdrawSol {
    pub authority: Signer,
    /// The holder of the unlock key.
    pub valid_signer_of_password: Signer,
    pub centurion: Account<Centurion>,
    pub legate: Account<Legate>,
    pub treasury: Pubkey,
}

/// The first reason for which the owner does not get native currency out of
/// the vault.
pub open spec fn withdraw_sol_denied(
    ctx: &WithdrawSol,
    amount: Option<u64>,
    minimum_reserve: u64,
) -> Option<ErrorCode> {
    or_else(
        unlock_denied(ctx.authority.key, ctx.valid_signer_of_password.key, &ctx.centurion.data),
        or_else(
            treasury_denied(ctx.treasury, &ctx.legate.data),
            native_denied(
                &ctx.centurion,
                ctx.legate.data.percent_for_fees,
                amount,
                minimum_reserve,
            ),
        ),
    )
}

/// Withdraws native currency to the owner, on the word of the owner and of
/// the unlock key. The amount must be covered both by what the vault's
/// account holds above `minimum_reserve` and by what the vault tracks; an
/// amount of nothing always is.
pub fn process_withdraw_sol(
    ctx: &mut WithdrawSol,
    amount_in_lamports: u64,
    minimum_reserve: u64,
    now: u64,
) -> (r: Result<Vec<Movement>, ErrorCode>)
    ensures
        r is Ok <==> withdraw_sol_denied(old(ctx), Some(amount_in_lamports), minimum_reserve)
            is None,
        r matches Err(e) ==> Some(e) == withdraw_sol_denied(
            old(ctx),
            Some(amount_in_lamports),
            minimum_reserve,
        ) && *final(ctx) == *old(ctx),
        r matches Ok(plan) ==> {
            &&& plan@ == lamport_route(
                old(ctx).centurion.key,
                old(ctx).treasury,
                old(ctx).authority.key,
                split_of(amount_in_lamports, old(ctx).legate.data.percent_for_fees),
            )
            &&& *final(ctx) == (WithdrawSol {
                centurion: Account {
                    data: Centurion {
                        lamport_balance: (old(ctx).centurion.data.lamport_balance
                            - amount_in_lamports) as u64,
                        last_accessed: now,
                        ..old(ctx).centurion.data
                    },
                    ..old(ctx).centurion
                },
                ..*old(ctx)
            })
            &&& amount_in_lamports <= old(ctx).centurion.data.lamport_balance
        },
{
    check_owner_and_unlock(&ctx.authority, &ctx.valid_signer_of_password, &ctx.centurion.data)?;
    check_treasury(&ctx.treasury, &ctx.legate.data)?;
    let rate = ctx.legate.data.percent_for_fees;
    let treasury = ctx.treasury;
    let to = ctx.authority.key;
    withdraw_native(
        &mut ctx.centurion,
        rate,
        treasury,
        to,
        Some(amount_in_lamports),
        minimum_reserve,
        now,
    )
}

/// The accounts of `process_withdraw_sol_to_backup`.
#[derive(Clone, Debug, PartialEq, Eq)]
pub struct WithdrawSolToBackup {
    /// The backup identity, which signs the request.
    pub backup_account: Signer,
    pub centurion: Account<Centurion>,
    pub legate: Account<Legate>,
    pub treasury: Pubkey,
}

/// The first reason for which the backup identity does not recover the
/// native currency of a vault.
pub open spec fn withdraw_sol_to_backup_denied(ctx: &WithdrawSolToBackup, minimum_reserve: u64)
    -> Option<ErrorCode> {
    or_else(
        backup_denied(ctx.backup_account.key, &ctx.centurion.data),
        or_else(
            treasury_denied(ctx.treasury, &ctx.legate.data),
            or_else(
                nothing_denied(withdrawable(ctx.centurion.lamports, minimum_reserve)),
                native_denied(
                    &ctx.centurion,
                    ctx.legate.data.percent_for_fees,
                    None,
                    minimum_reserve,
                ),
            ),
        ),
    )
}

/// Recovers all the native currency that can leave a vault to the backup
/// identity that the vault stores, on that identity's word alone. Afterwards
/// the vault tracks nothing as deposited. A vault from which nothing can
/// leave is reported as lacking funds.
pub fn process_withdraw_sol_to_backup(
    ctx: &mut WithdrawSolToBackup,
    minimum_reserve: u64,
    now: u64,
) -> (r: Result<Vec<Movement>, ErrorCode>)
    ensures
        r is Ok <==> withdraw_sol_to_backup_denied(old(ctx), minimum_reserve) is None,
        r matches Err(e) ==> Some(e) == withdraw_sol_to_backup_denied(old(ctx), minimum_reserve)
            && *final(ctx) == *old(ctx),
        r matches Ok(plan) ==> {
            &&& plan@ == lamport_route(
                old(ctx).centurion.key,
                old(ctx).treasury,
                old(ctx).backup_account.key,
                split_of(
                    withdrawable(old(ctx).centurion.lamports, minimum_reserve),
                    old(ctx).legate.data.percent_for_fees,
                ),
            )
            &&& *final(ctx) == (WithdrawSolToBackup {
                centurion: Account {
                    data: Centurion {
                        lamport_balance: 0,
                        last_accessed: now,
                        ..old(ctx).centurion.data
                    },
                    ..old(ctx).centurion
                },
                ..*old(ctx)
            })
        },
{
    check_backup(&ctx.backup_account, &ctx.centurion.data)?;
    check_treasury(&ctx.treasury, &ctx.legate.data)?;
    let rate = ctx.legate.data.percent_for_fees;
    let treasury = ctx.treasury;
    let to = ctx.backup_account.key;
    if ctx.centurion.lamports <= minimum_reserve {
        return Err(ErrorCode::InsufficientFunds);
    }
    withdraw_native(&mut ctx.centurion, rate, treasury, to, None, minimum_reserve, now)
}

/// The accounts of `process_withdraw_spl_token`.
#[derive(Clone, Debug, PartialEq, Eq)]
pub struct WithdrawSplToken {
    pub authority: Signer,
    /// The holder of the unlock key.
    pub valid_signer_of_password: Signer,
    /// The owner's own holding account for the asset.
    pub authority_ata: TokenAccount,
    pub centurion: Account<Centurion>,
    pub testudo: Testudo,
    pub mint: Mint,
    pub legate: Account<Legate>,
    pub treasury: Pubkey,
    /// The treasury's holding account for the asset.
    pub treasury_ata: TokenAccount,
}

/// The first reason for which the accounts around a sub-vault do not let a
/// typed asset leave it towards the holding account `to` of `receiver`.
pub open spec fn token_accounts_denied(
    vault: &Account<Centurion>,
    registry: &Legate,
    treasury: Pubkey,
    testudo: Testudo,
    mint: Pubkey,
    to: TokenAccount,
    receiver: Pubkey,
    treasury_ata: TokenAccount,
) -> Option<ErrorCode> {
    or_else(
        treasury_denied(treasury, registry),
        or_else(
            testudo_denied(testudo, vault, mint),
            or_else(
                holding_denied(to, receiver, mint),
                holding_denied(treasury_ata, treasury, mint),
            ),
        ),
    )
}

/// Admits the accounts around a sub-vault from which a typed asset is to
/// leave.
pub fn check_token_accounts(
    vault: &Account<Centurion>,
    registry: &Legate,
    treasury: &Pubkey,
    testudo: &Testudo,
    mint: &Pubkey,
    to: &TokenAccount,
    receiver: &Pubkey,
    treasury_ata: &TokenAccount,
) -> (r: Result<(), ErrorCode>)
    ensures
        r is Ok <==> token_accounts_denied(
            vault,
            registry,
            *treasury,
            *testudo,
            *mint,
            *to,
            *receiver,
            *treasury_ata,
        ) is None,
        r matches Err(e) ==> Some(e) == token_accounts_denied(
            vault,
            registry,
            *treasury,
            *testudo,
            *mint,
            *to,
            *receiver,
            *treasury_ata,
        ),
{
    check_treasury(treasury, registry)?;
    let _ = check_testudo(testudo, vault, mint)?;
    check_holding(to, receiver, mint)?;
    check_holding(treasury_ata, treasury, mint)?;
    Ok(())
}

/// The first reason for which the owner does not get a typed asset out of a
/// sub-vault.
pub open spec fn withdraw_spl_denied(ctx: &WithdrawSplToken, amount: Option<u64>) -> Option<
    ErrorCode,
> {
    or_else(
        unlock_denied(ctx.authority.key, ctx.valid_signer_of_password.key, &ctx.centurion.data),
        or_else(
            token_accounts_denied(
                &ctx.centurion,
                &ctx.legate.data,
                ctx.treasury,
                ctx.testudo,
                ctx.mint.key,
                ctx.authority_ata,
                ctx.authority.key,
                ctx.treasury_ata,
            ),
            token_denied(ctx.testudo, ctx.legate.data.percent_for_fees, amount),
        ),
    )
}

/// Withdraws a typed asset from its sub-vault to the owner's own holding
/// account, on the word of the owner and of the unlock key. The sub-vault
/// must hold the amount; an amount of nothing it always holds.
pub fn process_withdraw_spl_token(ctx: &mut WithdrawSplToken, amount_in_decimals: u64, now: u64)
    -> (r: Result<Vec<Movement>, ErrorCode>)
    ensures
        r is Ok <==> withdraw_spl_denied(old(ctx), Some(amount_in_decimals)) is None,
        r matches Err(e) ==> Some(e) == withdraw_spl_denied(old(ctx), Some(amount_in_decimals))
            && *final(ctx) == *old(ctx),
        r matches Ok(plan) ==> {
            &&& plan@ == token_route(
                old(ctx).testudo.key,
                old(ctx).treasury_ata.key,
                old(ctx).authority_ata.key,
                old(ctx).mint.key,
                old(ctx).centurion.key,
                old(ctx).mint.decimals,
                split_of(amount_in_decimals, old(ctx).legate.data.percent_for_fees),
            )
            &&& final(ctx).centurion.data.testudos@ == debited(
                old(ctx).centurion.data.testudos@,
                old(ctx).mint.key,
                amount_in_decimals,
            )
            &&& final(ctx).centurion.data.last_accessed == now
            &&& final(ctx).centurion.data.same_header(&old(ctx).centurion.data)
            &&& old(ctx).centurion.data.wf() ==> final(ctx).centurion.data.wf()
            &&& final(ctx).centurion.key == old(ctx).centurion.key
            &&& final(ctx).centurion.lamports == old(ctx).centurion.lamports
            &&& *final(ctx) == (WithdrawSplToken { centurion: final(ctx).centurion, ..*old(ctx) })
        },
{
    check_owner_and_unlock(&ctx.authority, &ctx.valid_signer_of_password, &ctx.centurion.data)?;
    check_token_accounts(
        &ctx.centurion,
        &ctx.legate.data,
        &ctx.treasury,
        &ctx.testudo,
        &ctx.mint.key,
        &ctx.authority_ata,
        &ctx.authority.key,
        &ctx.treasury_ata,
    )?;
    let rate = ctx.legate.data.percent_for_fees;
    let treasury_ata = ctx.treasury_ata.key;
    let to = ctx.authority_ata.key;
    let testudo = ctx.testudo;
    let mint = ctx.mint;
    withdraw_tokens(
        &mut ctx.centurion,
        &testudo,
        &mint,
        rate,
        treasury_ata,
        to,
        Some(amount_in_decimals),
        now,
    )
}

/// The accounts of `process_withdraw_to_backup`.
#[derive(Clone, Debug, PartialEq, Eq)]
pub struct WithdrawToBackup {
    /// The backup identity, which signs the request.
    pub backup_account: Signer,
    /// The backup identity's holding account for the asset.
    pub backup_ata: TokenAccount,
    pub centurion: Account<Centurion>,
    pub testudo: Testudo,
    pub mint: Mint,
    pub legate: Account<Legate>,
    pub treasury: Pubkey,
    /// The treasury's holding account for the asset.
    pub treasury_ata: TokenAccount,
}

/// The first reason for which the backup identity does not recover a typed
/// asset of a vault.
pub open spec fn withdraw_to_backup_denied(ctx: &WithdrawToBackup) -> Option<ErrorCode> {
    or_else(
        backup_denied(ctx.backup_account.key, &ctx.centurion.data),
        or_else(
            token_accounts_denied(
                &ctx.centurion,
                &ctx.legate.data,
                ctx.treasury,
                ctx.testudo,
                ctx.mint.key,
                ctx.backup_ata,
                ctx.backup_account.key,
                ctx.treasury_ata,
            ),
            token_denied(ctx.testudo, ctx.legate.data.percent_for_fees, None),
        ),
    )
}

/// Recovers all that a sub-vault holds to the holding account of the backup
/// identity that the vault stores, on that identity's word alone. Afterwards
/// the vault records nothing as held for the asset.
pub fn process_withdraw_to_backup(ctx: &mut WithdrawToBackup, now: u64) -> (r: Result<
    Vec<Movement>,
    ErrorCode,
>)
    ensures
        r is Ok <==> withdraw_to_backup_denied(old(ctx)) is None,
        r matches Err(e) ==> Some(e) == withdraw_to_backup_denied(old(ctx)) && *final(ctx) == *old(ctx),
        r matches Ok(plan) ==> {
            &&& plan@ == token_route(
                old(ctx).testudo.key,
                old(ctx).treasury_ata.key,
                old(ctx).backup_ata.key,
                old(ctx).mint.key,
                old(ctx).centurion.key,
                old(ctx).mint.decimals,
                split_of(old(ctx).testudo.amount, old(ctx).legate.data.percent_for_fees),
            )
            &&& final(ctx).centurion.data.testudos@ == recorded(
                old(ctx).centurion.data.testudos@,
                old(ctx).mint.key,
                0,
            )
            &&& final(ctx).centurion.data.tracks(old(ctx).mint.key)
            &&& count_of(final(ctx).centurion.data.testudos@, old(ctx).mint.key) == 0
            &&& final(ctx).centurion.data.last_accessed == now
            &&& final(ctx).centurion.data.same_header(&old(ctx).centurion.data)
            &&& old(ctx).centurion.data.wf() ==> final(ctx).centurion.data.wf()
            &&& final(ctx).centurion.key == old(ctx).centurion.key
            &&& final(ctx).centurion.lamports == old(ctx).centurion.lamports
            &&& *final(ctx) == (WithdrawToBackup { centurion: final(ctx).centurion, ..*old(ctx) })
        },
{
    check_backup(&ctx.backup_account, &ctx.centurion.data)?;
    check_token_accounts(
        &ctx.centurion,
        &ctx.legate.data,
        &ctx.treasury,
        &ctx.testudo,
        &ctx.mint.key,
        &ctx.backup_ata,
        &ctx.backup_account.key,
        &ctx.treasury_ata,
    )?;
    let rate = ctx.legate.data.percent_for_fees;
    let treasury_ata = ctx.treasury_ata.key;
    let to = ctx.backup_ata.key;
    let testudo = ctx.testudo;
    let mint = ctx.mint;
    proof {
        lemma_recorded_keeps_assets(ctx.centurion.data.testudos@, mint.key, 0);
    }
    withdraw_tokens(&mut ctx.centurion, &testudo, &mint, rate, treasury_ata, to, None, now)
}

/// A vault that stores no backup identity lets nobody recover: whoever asks,
/// and whatever else holds, the answer is that no backup identity is stored.
pub proof fn lemma_no_backup_no_recovery(
    native: WithdrawSolToBackup,
    tokens: WithdrawToBackup,
    minimum_reserve: u64,
)
    requires
        native.centurion.data.is_initialized,
        native.centurion.data.backup_owner is None,
        tokens.centurion.data.is_initialized,
        tokens.centurion.data.backup_owner is None,
    ensures
        withdraw_sol_to_backup_denied(&native, minimum_reserve) == Some(
            ErrorCode::NoBackupAccountStored,
        ),
        withdraw_to_backup_denied(&tokens) == Some(ErrorCode::NoBackupAccountStored),
{
}

/// The accounts that a withdrawal of a typed asset adds to those of a
/// withdrawal of native currency.
#[derive(Clone, Copy, Debug, PartialEq, Eq)]
pub struct WithdrawSpl {
    pub mint: Mint,
    /// The owner's own holding account for the asset.
    pub authority_ata: TokenAccount,
    /// The sub-vault.
    pub testudo_ata: Testudo,
    /// The treasury's holding account for the asset.
    pub treasury_ata: TokenAccount,
}

/// The accounts of `process_withdraw`.
#[derive(Clone, Debug, PartialEq, Eq)]
pub struct Withdraw {
    pub authority: Signer,
    /// The holder of the unlock key.
    pub valid_signer_of_password: Signer,
    pub centurion: Account<Centurion>,
    pub legate: Account<Legate>,
    pub treasury: Pubkey,
    /// What is withdrawn.
    pub asset: AssetRef<WithdrawSpl>,
}

/// The first reason for which the owner does not get value out of the vault.
pub open spec fn withdraw_denied(ctx: &Withdraw, amount: Option<u64>, minimum_reserve: u64)
    -> Option<ErrorCode> {
    or_else(
        unlock_denied(ctx.authority.key, ctx.valid_signer_of_password.key, &ctx.centurion.data),
        match ctx.asset {
            AssetRef::Native => or_else(
                treasury_denied(ctx.treasury, &ctx.legate.data),
                or_else(
                    nothing_denied(native_amount(&ctx.centurion, amount, minimum_reserve)),
                    native_denied(
                        &ctx.centurion,
                        ctx.legate.data.percent_for_fees,
                        amount,
                        minimum_reserve,
                    ),
                ),
            ),
            AssetRef::Typed(spl) => or_else(
                token_accounts_denied(
                    &ctx.centurion,
                    &ctx.legate.data,
                    ctx.treasury,
                    spl.testudo_ata,
                    spl.mint.key,
                    spl.authority_ata,
                    ctx.authority.key,
                    spl.treasury_ata,
                ),
                or_else(
                    nothing_denied(token_amount(spl.testudo_ata, amount)),
                    token_denied(spl.testudo_ata, ctx.legate.data.percent_for_fees, amount),
                ),
            ),
        },
    )
}

/// What a withdrawal asks the surrounding ledger to move.
pub open spec fn withdraw_plan(ctx: &Withdraw, amount: Option<u64>, minimum_reserve: u64) -> Seq<
    Movement,
> {
    match ctx.asset {
        AssetRef::Native => lamport_route(
            ctx.centurion.key,
            ctx.treasury,
            ctx.authority.key,
            split_of(
                native_amount(&ctx.centurion, amount, minimum_reserve),
                ctx.legate.data.percent_for_fees,
            ),
        ),
        AssetRef::Typed(spl) => token_route(
            spl.testudo_ata.key,
            spl.treasury_ata.key,
            spl.authority_ata.key,
            spl.mint.key,
            ctx.centurion.key,
            spl.mint.decimals,
            split_of(token_amount(spl.testudo_ata, amount), ctx.legate.data.percent_for_fees),
        ),
    }
}

/// Withdraws to the owner, on the word of the owner and of the unlock key:
/// native currency, or the typed asset whose accounts are given; the amount
/// named, or all that can leave where none is named. A request that would
/// move nothing is reported as lacking funds.
pub fn process_withdraw(ctx: &mut Withdraw, amount: Option<u64>, minimum_reserve: u64, now: u64)
    -> (r: Result<Vec<Movement>, ErrorCode>)
    ensures
        r is Ok <==> withdraw_denied(old(ctx), amount, minimum_reserve) is None,
        r matches Err(e) ==> Some(e) == withdraw_denied(old(ctx), amount, minimum_reserve)
            && *final(ctx) == *old(ctx),
        r matches Ok(plan) ==> {
            &&& plan@ == withdraw_plan(old(ctx), amount, minimum_reserve)
            &&& final(ctx).centurion.data.last_accessed == now
            &&& match old(ctx).asset {
                AssetRef::Native => final(ctx).centurion.data == (Centurion {
                    lamport_balance: native_balance_after(&old(ctx).centurion, amount),
                    last_accessed: now,
                    ..old(ctx).centurion.data
                }),
                AssetRef::Typed(spl) => final(ctx).centurion.data.testudos@ == index_after_withdrawal(
                    old(ctx).centurion.data.testudos@,
                    spl.mint.key,
                    amount,
                ) && final(ctx).centurion.data.same_header(&old(ctx).centurion.data),
            }
            &&& old(ctx).centurion.data.wf() ==> final(ctx).centurion.data.wf()
            &&& final(ctx).centurion.key == old(ctx).centurion.key
            &&& final(ctx).centurion.lamports == old(ctx).centurion.lamports
            &&& *final(ctx) == (Withdraw { centurion: final(ctx).centurion, ..*old(ctx) })
        },
{
    check_owner_and_unlock(&ctx.authority, &ctx.valid_signer_of_password, &ctx.centurion.data)?;
    let rate = ctx.legate.data.percent_for_fees;
    match ctx.asset {
        AssetRef::Native => {
            check_treasury(&ctx.treasury, &ctx.legate.data)?;
            let treasury = ctx.treasury;
            let to = ctx.authority.key;
            let asked: u64 = match amount {
                Some(a) => a,
                None => if ctx.centurion.lamports >= minimum_reserve {
                    ctx.centurion.lamports - minimum_reserve
                } else {
                    0
                },
            };
            if asked == 0 {
                return Err(ErrorCode::InsufficientFunds);
            }
            withdraw_native(&mut ctx.centurion, rate, treasury, to, amount, minimum_reserve, now)
        },
        AssetRef::Typed(spl) => {
            check_token_accounts(
                &ctx.centurion,
                &ctx.legate.data,
                &ctx.treasury,
                &spl.testudo_ata,
                &spl.mint.key,
                &spl.authority_ata,
                &ctx.authority.key,
                &spl.treasury_ata,
            )?;
            let asked: u64 = match amount {
                Some(a) => a,
                None => spl.testudo_ata.amount,
            };
            if asked == 0 {
                return Err(ErrorCode::InsufficientFunds);
            }
            withdraw_tokens(
                &mut ctx.centurion,
                &spl.testudo_ata,
                &spl.mint,
                rate,
                spl.treasury_ata.key,
                spl.authority_ata.key,
                amount,
                now,
            )
        },
    }
}

} // verus!
