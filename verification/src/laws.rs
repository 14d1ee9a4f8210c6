//! What holds across operations.

use vstd::prelude::*;
use crate::accounts::{Account, Signer};
use crate::calls::{lamport_route, token_route, Movement};
use crate::custom_accounts::centurion::{
    count_of, lemma_recorded_keeps_assets, recorded, Centurion,
};
use crate::fees::{capped_sum, fee_computable, split_of};
use crate::instructions::deposit::{
    deposit_sol_denied, deposit_spl_denied, native_deposit_denied, DepositSol, DepositSplToken,
};
use crate::instructions::withdraw::{native_balance_after, native_denied};

verus! {

/// Of every deposit of a typed asset that is accepted: the fee is the amount
/// times the rate over 10000, rounded down; the rest is the amount less the
/// fee; the two add up to the amount. Both leave the owner's holding account,
/// the fee to the treasury's holding account first, the rest to the sub-vault
/// second; where the fee is nothing, the rest is all that moves. What the
/// vault records for the asset grows by the rest, not by the amount.
pub proof fn lemma_token_deposit_is_exact(ctx: DepositSplToken, amount: u64)
    requires
        deposit_spl_denied(&ctx, amount) is None,
    ensures
        ({
            let rate = ctx.legate.data.percent_for_fees;
            let split = split_of(amount, rate);
            let plan = token_route(
                ctx.authority_ata.key,
                ctx.treasury_ata.key,
                ctx.testudo.key,
                ctx.mint.key,
                ctx.authority.key,
                ctx.mint.decimals,
                split,
            );
            let fee_first = Movement::Tokens {
                from: ctx.authority_ata.key,
                to: ctx.treasury_ata.key,
                mint: ctx.mint.key,
                authority: ctx.authority.key,
                amount: split.fee,
                decimals: ctx.mint.decimals,
            };
            let rest_second = Movement::Tokens {
                from: ctx.authority_ata.key,
                to: ctx.testudo.key,
                mint: ctx.mint.key,
                authority: ctx.authority.key,
                amount: split.net,
                decimals: ctx.mint.decimals,
            };
            let index = ctx.centurion.data.testudos@;
            let after = recorded(
                index,
                ctx.mint.key,
                (count_of(index, ctx.mint.key) + split.net) as u64,
            );
            &&& split.fee == amount * rate / 10000
            &&& split.net == amount - amount * rate / 10000
            &&& split.fee + split.net == amount
            &&& amount <= ctx.authority_ata.amount
            &&& split.fee > 0 ==> plan == seq![fee_first, rest_second]
            &&& split.fee == 0 ==> plan == seq![rest_second]
            &&& count_of(after, ctx.mint.key) == count_of(index, ctx.mint.key) + split.net
        }),
{
    let rate = ctx.legate.data.percent_for_fees;
    let split = split_of(amount, rate);
    let index = ctx.centurion.data.testudos@;
    assert(0 <= amount * rate) by (nonlinear_arith)
        requires
            0 <= amount,
            0 <= rate,
    ;
    lemma_recorded_keeps_assets(
        index,
        ctx.mint.key,
        (count_of(index, ctx.mint.key) + split.net) as u64,
    );
}

/// Of every deposit of native currency that is accepted: the fee is the
/// amount times the rate over 10000, rounded down; the rest is the amount
/// less the fee; the two add up to the amount. Both leave the owner, the fee
/// to the treasury first, the rest to the vault second; where the fee is
/// nothing, the rest is all that moves. What the vault tracks grows by the
/// rest.
pub proof fn lemma_native_deposit_is_exact(ctx: DepositSol, amount: u64)
    requires
        deposit_sol_denied(&ctx, amount) is None,
    ensures
        ({
            let rate = ctx.legate.data.percent_for_fees;
            let split = split_of(amount, rate);
            let plan = lamport_route(ctx.authority.key, ctx.treasury, ctx.centurion.key, split);
            let fee_first = Movement::Lamports {
                from: ctx.authority.key,
                to: ctx.treasury,
                amount: split.fee,
            };
            let rest_second = Movement::Lamports {
                from: ctx.authority.key,
                to: ctx.centurion.key,
                amount: split.net,
            };
            &&& split.fee == amount * rate / 10000
            &&& split.net == amount - amount * rate / 10000
            &&& split.fee + split.net == amount
            &&& amount <= ctx.authority.lamports
            &&& split.fee > 0 ==> plan == seq![fee_first, rest_second]
            &&& split.fee == 0 ==> plan == seq![rest_second]
            &&& ctx.centurion.data.lamport_balance + split.net <= u64::MAX
        }),
{
    let rate = ctx.legate.data.percent_for_fees;
    assert(0 <= amount * rate) by (nonlinear_arith)
        requires
            0 <= amount,
            0 <= rate,
    ;
}

/// A vault once a deposit of native currency is carried out: it tracks the
/// rest of the amount as deposited, and its account holds that much more.
pub open spec fn after_native_deposit(
    vault: Account<Centurion>,
    rate_bps: u16,
    amount: u64,
    now: u64,
) -> Account<Centurion> {
    Account {
        key: vault.key,
        lamports: capped_sum(vault.lamports, split_of(amount, rate_bps).net),
        data: Centurion {
            lamport_balance: (vault.data.lamport_balance + split_of(amount, rate_bps).net) as u64,
            last_accessed: now,
            ..vault.data
        },
    }
}

/// Depositing an amount and then withdrawing what the deposit left in the
/// vault, at the same rate, gives back no more than the amount, and the vault
/// tracks afterwards what it did before: the withdrawal is covered by what
/// the vault tracks, so that nothing is taken from below nothing. Where the
/// deposit left something and the vault's account held its reserve before,
/// the withdrawal is accepted.
pub proof fn lemma_round_trip(
    vault: Account<Centurion>,
    rate_bps: u16,
    from: Signer,
    amount: u64,
    minimum_reserve: u64,
    now: u64,
)
    requires
        native_deposit_denied(&vault, rate_bps, from, amount) is None,
    ensures
        ({
            let net = split_of(amount, rate_bps).net;
            let credited = after_native_deposit(vault, rate_bps, amount, now);
            &&& net <= amount
            &&& net <= credited.data.lamport_balance
            &&& native_denied(&credited, rate_bps, Some(net), minimum_reserve) is None ==> {
                &&& split_of(net, rate_bps).fee + split_of(net, rate_bps).net == net
                &&& split_of(net, rate_bps).net <= amount
                &&& native_balance_after(&credited, Some(net)) == vault.data.lamport_balance
            }
            &&& net > 0 && vault.lamports >= minimum_reserve && vault.lamports + net <= u64::MAX
                ==> native_denied(&credited, rate_bps, Some(net), minimum_reserve) is None
        }),
{
    if split_of(amount, rate_bps).net > 0 {
        lemma_fee_rest_computable(amount, rate_bps);
    }
}

/// Where the fee on an amount can be computed and leaves something, the fee
/// on what it leaves can be computed too.
pub proof fn lemma_fee_rest_computable(amount: u64, rate_bps: u16)
    requires
        fee_computable(amount, rate_bps),
        split_of(amount, rate_bps).net > 0,
    ensures
        fee_computable(split_of(amount, rate_bps).net, rate_bps),
{
    let net = split_of(amount, rate_bps).net;
    let a = amount as int;
    let r = rate_bps as int;
    assert(0 <= a * r) by (nonlinear_arith)
        requires
            0 <= a,
            0 <= r,
    ;
    assert(net * r <= a * r) by (nonlinear_arith)
        requires
            0 <= net <= a,
            0 <= r,
    ;
    assert(0 <= net * r) by (nonlinear_arith)
        requires
            0 <= net,
            0 <= r,
    ;
    // Something is left, so the rate is below the whole.
    assert(r < 10000) by (nonlinear_arith)
        requires
            0 <= a,
            0 <= r,
            a * r / 10000 < a,
    ;
    assert(net * r <= net * 10000) by (nonlinear_arith)
        requires
            0 <= net,
            0 <= r < 10000,
    ;
}

} // verus!
