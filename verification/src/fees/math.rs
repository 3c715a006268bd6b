//! Protocol fee calculation.

use vstd::prelude::*;
use vstd::arithmetic::div_mod::{lemma_div_is_ordered, lemma_div_by_multiple, lemma_div_pos_is_pos};

use crate::common::{fits_i128, trunc_div, FeeError};

verus! {

/// Basis points in 100%: a fee rate of 100 is 1%, 10 000 is 100%.
pub const BASIS_POINTS: i128 = 10_000;

/// The fee on `amount` at `fee_rate` basis points: `amount * fee_rate / 10_000`
/// rounded toward zero; zero at a zero rate, and an overflow error when the
/// product does not fit in `i128`.
pub open spec fn spec_fee(amount: i128, fee_rate: u32) -> Result<i128, FeeError> {
    if fee_rate == 0 {
        Ok(0)
    } else if !fits_i128(amount * fee_rate) {
        Err(FeeError::FeeCalculationOverflow)
    } else {
        Ok(trunc_div(amount * fee_rate, 10_000) as i128)
    }
}

/// Calculate protocol fee as `amount * fee_rate / 10_000`, with an overflow
/// check on the product.
pub fn calculate_fee(amount: i128, fee_rate: u32) -> (r: Result<i128, FeeError>)
    ensures
        r == spec_fee(amount, fee_rate),
{
    if fee_rate == 0 {
        return Ok(0);
    }
    match amount.checked_mul(fee_rate as i128) {
        Some(product) => Ok(product / BASIS_POINTS),
        None => Err(FeeError::FeeCalculationOverflow),
    }
}

/// For a non-negative amount (small enough that the fee never overflows) and
/// a rate of at most 100%, the fee is between zero and the amount, and a
/// higher rate never gives a lower fee.
pub proof fn lemma_fee_bounds(amount: i128, fee_rate: u32, higher_rate: u32)
    requires
        amount >= 0,
        amount * 10_000 <= i128::MAX,
        fee_rate <= higher_rate <= 10_000,
    ensures
        spec_fee(amount, fee_rate) is Ok,
        spec_fee(amount, higher_rate) is Ok,
        0 <= spec_fee(amount, fee_rate).unwrap() <= amount,
        spec_fee(amount, fee_rate).unwrap() <= spec_fee(amount, higher_rate).unwrap(),
{
    assert(0 <= amount * fee_rate <= amount * higher_rate <= amount * 10_000) by (nonlinear_arith)
        requires
            amount >= 0,
            0 <= fee_rate <= higher_rate <= 10_000,
    ;
    lemma_div_pos_is_pos(amount * fee_rate, 10_000);
    lemma_div_is_ordered(amount * fee_rate, amount * higher_rate, 10_000);
    lemma_div_is_ordered(amount * higher_rate, amount * 10_000, 10_000);
    lemma_div_by_multiple(amount as int, 10_000);
}

/// The fee in plain arithmetic: nothing at a zero rate; otherwise the
/// product `amount * fee_rate` must fit in `i128` (else
/// `FeeCalculationOverflow`), and the fee is that product divided by
/// 10 000, rounded toward zero: for a non-negative amount the largest `f`
/// with `10_000 * f <= amount * fee_rate`, and for a negative amount the
/// mirror image.
pub proof fn lemma_fee_formula(amount: i128, fee_rate: u32)
    ensures
        fee_rate == 0 ==> spec_fee(amount, fee_rate) == Ok::<i128, FeeError>(0),
        fee_rate != 0 ==> (spec_fee(amount, fee_rate) is Err <==> !(i128::MIN <= amount * fee_rate
            <= i128::MAX)),
        spec_fee(amount, fee_rate) is Err ==> spec_fee(amount, fee_rate) == Err::<i128, FeeError>(
            FeeError::FeeCalculationOverflow,
        ),
        fee_rate != 0 && amount >= 0 && spec_fee(amount, fee_rate) is Ok ==> {
            let f = spec_fee(amount, fee_rate).unwrap();
            &&& 10_000 * f <= amount * fee_rate < 10_000 * (f + 1)
        },
        fee_rate != 0 && amount < 0 && spec_fee(amount, fee_rate) is Ok ==> {
            let f = spec_fee(amount, fee_rate).unwrap();
            &&& 10_000 * (-f) <= (-amount) * fee_rate < 10_000 * (-f + 1)
        },
{
    let p = amount * fee_rate;
    if fee_rate != 0 && fits_i128(p) {
        if amount >= 0 {
            assert(0 <= p) by (nonlinear_arith)
                requires
                    amount >= 0,
                    fee_rate >= 0,
                    p == amount * fee_rate,
            ;
            vstd::arithmetic::div_mod::lemma_fundamental_div_mod(p, 10_000);
        } else {
            assert((-amount) * fee_rate == -p) by (nonlinear_arith)
                requires
                    p == amount * fee_rate,
            ;
            assert(-p >= 0) by (nonlinear_arith)
                requires
                    amount < 0,
                    fee_rate >= 0,
                    p == amount * fee_rate,
            ;
            vstd::arithmetic::div_mod::lemma_fundamental_div_mod(-p, 10_000);
        }
    }
}

} // verus!
