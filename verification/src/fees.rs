//! The fee engine: a fee in basis points is withheld from every amount that
//! moves, and what is left goes to the destination.

use vstd::prelude::*;
use crate::errors::ErrorCode;

verus! {

/// The rate that stands for the whole amount: 10000 basis points.
pub const BASIS_POINTS: u64 = 10000;

/// The fee on `amount` at `rate_bps` basis points, rounded down.
pub open spec fn fee_of(amount: int, rate_bps: int) -> int {
    amount * rate_bps / 10000
}

/// What is left of `amount` once the fee is withheld.
pub open spec fn net_of(amount: int, rate_bps: int) -> int {
    amount - fee_of(amount, rate_bps)
}

/// Whether the fee on `amount` can be computed in 64 bits and is covered by
/// the amount. It always is for a rate of at most 10000 whose product with the
/// amount fits.
pub open spec fn fee_computable(amount: u64, rate_bps: u16) -> bool {
    &&& amount * rate_bps <= u64::MAX
    &&& fee_of(amount as int, rate_bps as int) <= amount
}

/// The difference of two balances, and nothing where there is none.
pub open spec fn fall(from: u64, to: u64) -> u64 {
    if from >= to {
        (from - to) as u64
    } else {
        0
    }
}

/// The sum of two amounts, held at the most that 64 bits can say.
pub open spec fn capped_sum(a: u64, b: u64) -> u64 {
    if a + b <= u64::MAX {
        (a + b) as u64
    } else {
        u64::MAX
    }
}

/// An amount parted into the fee for the treasury and the rest.
#[derive(Clone, Copy, Debug, PartialEq, Eq, Structural)]
pub struct FeeSplit {
    pub fee: u64,
    pub net: u64,
}

/// The parts of `amount` at `rate_bps` basis points, where the fee can be
/// computed.
pub open spec fn split_of(amount: u64, rate_bps: u16) -> FeeSplit {
    FeeSplit {
        fee: fee_of(amount as int, rate_bps as int) as u64,
        net: net_of(amount as int, rate_bps as int) as u64,
    }
}

/// Parts `amount` into fee and rest at `rate_bps` basis points. The product is
/// computed with a check and the operation fails closed: where it does not
/// fit, or where the fee would exceed the amount, nothing is parted.
pub fn split_fee(amount: u64, rate_bps: u16) -> (r: Result<FeeSplit, ErrorCode>)
    ensures
        r is Ok <==> fee_computable(amount, rate_bps),
        r matches Ok(s) ==> s == split_of(amount, rate_bps) && s.fee == fee_of(
            amount as int,
            rate_bps as int,
        ) && s.net == net_of(amount as int, rate_bps as int) && s.fee + s.net == amount,
        r matches Err(e) ==> e == ErrorCode::ArithmeticOverflow,
{
    let rate: u64 = rate_bps as u64;
    match amount.checked_mul(rate) {
        None => Err(ErrorCode::ArithmeticOverflow),
        Some(product) => {
            let fee: u64 = product / BASIS_POINTS;
            if fee > amount {
                Err(ErrorCode::ArithmeticOverflow)
            } else {
                Ok(FeeSplit { fee, net: amount - fee })
            }
        },
    }
}

/// Where the fee can be computed, the parts are the fee rounded down and the
/// amount less that fee, and they add up to the amount exactly.
pub proof fn lemma_split_exact(amount: u64, rate_bps: u16)
    requires
        fee_computable(amount, rate_bps),
    ensures
        split_of(amount, rate_bps).fee == amount * rate_bps / 10000,
        split_of(amount, rate_bps).net == amount - amount * rate_bps / 10000,
        split_of(amount, rate_bps).fee + split_of(amount, rate_bps).net == amount,
        split_of(amount, rate_bps).net <= amount,
{
    assert(0 <= amount * rate_bps) by (nonlinear_arith)
        requires
            0 <= amount,
            0 <= rate_bps,
    ;
}

/// A rate of at most 10000 basis points never takes more than the amount.
pub proof fn lemma_fee_at_most_amount(amount: int, rate_bps: int)
    requires
        0 <= amount,
        0 <= rate_bps <= 10000,
    ensures
        0 <= fee_of(amount, rate_bps) <= amount,
{
    assert(amount * rate_bps <= amount * 10000) by (nonlinear_arith)
        requires
            0 <= amount,
            0 <= rate_bps <= 10000,
    ;
    assert(0 <= amount * rate_bps) by (nonlinear_arith)
        requires
            0 <= amount,
            0 <= rate_bps,
    ;
}

/// Fee and rest add up to the amount exactly, whatever the rate.
pub proof fn lemma_fee_plus_net(amount: int, rate_bps: int)
    ensures
        fee_of(amount, rate_bps) + net_of(amount, rate_bps) == amount,
{
}

} // verus!
