//! Decimal fixed-point arithmetic. Token amounts, prices and rates carry nine
//! decimals; the stability pool's per-unit accumulators carry eighteen.
//!
//! Every function computes the exact integer result: products are formed in
//! 128 bits before they are divided, and a result that does not fit its type
//! is reported, never wrapped or saturated.

use vstd::prelude::*;

verus! {

/// One whole token, one dollar or a rate of 100%, in base units.
pub const DECIMALS: u64 = 1_000_000_000;

/// The scale of the stability pool's per-unit accumulators.
pub const SCALE_FACTOR: u128 = 1_000_000_000_000_000_000;

/// The length of the year over which an annual rate accrues.
pub const SECONDS_PER_YEAR: u64 = 31_536_000;

/// `DECIMALS * SECONDS_PER_YEAR`: what debt times rate times seconds is divided by.
pub const INTEREST_DIVISOR: u128 = 31_536_000_000_000_000;

/// The one-time fee on new debt: 0.5%.
pub const BORROWING_FEE: u64 = 5_000_000;

/// The share of a liquidated trove's collateral that is kept back, in percent.
pub const LIQUIDATION_PENALTY: u64 = 5;

/// `floor(a * b / d)`.
pub open spec fn spec_mul_div(a: nat, b: nat, d: nat) -> nat {
    (a * b) / d
}

/// What `collateral` is worth at `price`.
pub open spec fn spec_collateral_value(collateral: nat, price: nat) -> nat {
    spec_mul_div(collateral, price, DECIMALS as nat)
}

/// The collateral ratio in percent: the collateral's worth times 100, over the debt.
pub open spec fn spec_collateral_ratio(collateral: nat, debt: nat, price: nat) -> nat {
    (spec_collateral_value(collateral, price) * 100) / debt
}

/// The fee on `amount` of new debt.
pub open spec fn spec_borrowing_fee(amount: nat) -> nat {
    spec_mul_div(amount, BORROWING_FEE as nat, DECIMALS as nat)
}

/// Simple interest on `debt` at the annual `rate` over `elapsed` seconds.
pub open spec fn spec_interest(debt: nat, rate: nat, elapsed: nat) -> nat {
    (debt * rate * elapsed) / (INTEREST_DIVISOR as nat)
}

/// The collateral kept back when a trove of `collateral` is liquidated.
pub open spec fn spec_liquidation_penalty(collateral: nat) -> nat {
    spec_mul_div(collateral, LIQUIDATION_PENALTY as nat, 100)
}

/// What one unit of deposit gets of `amount` shared over `total`, scaled.
pub open spec fn spec_per_unit(amount: nat, total: nat) -> nat {
    (amount * (SCALE_FACTOR as nat)) / total
}

/// What `deposit` gets for a per-unit increase of `delta`.
pub open spec fn spec_share(deposit: nat, delta: nat) -> nat {
    (deposit * delta) / (SCALE_FACTOR as nat)
}

/// The exact proportion of `amount` that falls to `deposit` out of `total`,
/// rounded down.
pub open spec fn spec_proportion(amount: nat, deposit: nat, total: nat) -> nat {
    (amount * deposit) / total
}

/// The most by which a share may fall short of the exact proportion: one
/// unit, and one more for every whole `SCALE_FACTOR` of deposit.
pub open spec fn spec_rounding(deposit: nat) -> nat {
    1 + deposit / (SCALE_FACTOR as nat)
}

/// The product of two 64-bit numbers fits 128 bits.
pub proof fn lemma_product_fits(a: u64, b: u64)
    ensures
        0 <= a * b <= 0xffff_ffff_ffff_fffe_0000_0000_0000_0001,
        a * b <= u128::MAX,
{
    assert(0 <= a * b <= 0xffff_ffff_ffff_ffff * 0xffff_ffff_ffff_ffff) by (nonlinear_arith)
        requires
            0 <= a <= 0xffff_ffff_ffff_ffff,
            0 <= b <= 0xffff_ffff_ffff_ffff,
    ;
}

/// `floor(a * b / d)` for a divisor that is not zero. The product is formed
/// in 128 bits, where it always fits.
fn quotient(a: u64, b: u64, d: u64) -> (r: u128)
    requires
        d > 0,
    ensures
        r == spec_mul_div(a as nat, b as nat, d as nat),
        d >= b ==> r <= a,
{
    proof {
        lemma_product_fits(a, b);
        if d >= b {
            assert((a * b) / (d as int) <= a) by (nonlinear_arith)
                requires
                    0 < d,
                    0 <= b <= d,
                    0 <= a,
            ;
        }
    }
    let product: u128 = (a as u128) * (b as u128);
    product / (d as u128)
}

/// `floor(a * b / d)`, exactly; `None` where `d` is zero.
pub fn mul_div(a: u64, b: u64, d: u64) -> (r: Option<u128>)
    ensures
        d == 0 ==> r.is_none(),
        d != 0 ==> r == Some(spec_mul_div(a as nat, b as nat, d as nat) as u128),
        d != 0 ==> spec_mul_div(a as nat, b as nat, d as nat) <= u128::MAX,
{
    if d == 0 {
        None
    } else {
        Some(quotient(a, b, d))
    }
}

/// What `collateral` is worth at `price`.
pub fn collateral_value(collateral: u64, price: u64) -> (r: u128)
    ensures
        r == spec_collateral_value(collateral as nat, price as nat),
{
    quotient(collateral, price, DECIMALS)
}

/// The collateral ratio in percent, against a debt that is not zero.
pub(crate) fn ratio(collateral: u64, debt: u64, price: u64) -> (r: u128)
    requires
        debt > 0,
    ensures
        r == spec_collateral_ratio(collateral as nat, debt as nat, price as nat),
{
    proof {
        lemma_product_fits(collateral, price);
    }
    let value: u128 = collateral_value(collateral, price);
    let percent: u128 = value * 100;
    percent / (debt as u128)
}

/// The collateral ratio in percent; `None` where there is no debt.
pub fn collateral_ratio(collateral: u64, debt: u64, price: u64) -> (r: Option<u128>)
    ensures
        debt == 0 ==> r.is_none(),
        debt != 0 ==> r == Some(
            spec_collateral_ratio(collateral as nat, debt as nat, price as nat) as u128,
        ),
        debt != 0 ==> spec_collateral_ratio(collateral as nat, debt as nat, price as nat)
            <= u128::MAX,
{
    if debt == 0 {
        None
    } else {
        Some(ratio(collateral, debt, price))
    }
}

/// The fee on `amount` of new debt: a two-hundredth of it, rounded down.
pub fn borrowing_fee(amount: u64) -> (r: u64)
    ensures
        r == spec_borrowing_fee(amount as nat),
        r == amount / 200,
{
    proof {
        assert((amount * 5_000_000) / 1_000_000_000 == amount / 200);
    }
    let fee: u128 = quotient(amount, BORROWING_FEE, DECIMALS);
    fee as u64
}

/// The collateral kept back when a trove of `collateral` is liquidated.
pub fn liquidation_penalty(collateral: u64) -> (r: u64)
    ensures
        r == spec_liquidation_penalty(collateral as nat),
        r <= collateral,
{
    let penalty: u128 = quotient(collateral, LIQUIDATION_PENALTY, 100);
    penalty as u64
}

/// Simple interest on `debt` at the annual `rate` over `elapsed` seconds;
/// `None` where it exceeds 64 bits.
pub fn accrued_interest(debt: u64, rate: u64, elapsed: u64) -> (r: Option<u64>)
    ensures
        r == if spec_interest(debt as nat, rate as nat, elapsed as nat) <= u64::MAX {
            Some(spec_interest(debt as nat, rate as nat, elapsed as nat) as u64)
        } else {
            None
        },
{
    proof {
        lemma_product_fits(debt, rate);
    }
    let principal_rate: u128 = (debt as u128) * (rate as u128);
    match principal_rate.checked_mul(elapsed as u128) {
        Some(product) => {
            let interest: u128 = product / INTEREST_DIVISOR;
            if interest > u64::MAX as u128 {
                None
            } else {
                Some(interest as u64)
            }
        },
        None => {
            assert((debt * rate * elapsed) / (INTEREST_DIVISOR as int) > u64::MAX);
            None
        },
    }
}

/// What one unit of deposit gets of `amount` shared over a `total` that is
/// not zero, scaled.
pub(crate) fn unit_share(amount: u64, total: u64) -> (r: u128)
    requires
        total > 0,
    ensures
        r == spec_per_unit(amount as nat, total as nat),
{
    let scaled: u128 = (amount as u128) * SCALE_FACTOR;
    scaled / (total as u128)
}

/// What one unit of deposit gets of `amount` shared over `total`, scaled;
/// `None` where `total` is zero.
pub fn per_unit(amount: u64, total: u64) -> (r: Option<u128>)
    ensures
        total == 0 ==> r.is_none(),
        total != 0 ==> r == Some(spec_per_unit(amount as nat, total as nat) as u128),
        total != 0 ==> spec_per_unit(amount as nat, total as nat) <= u128::MAX,
{
    if total == 0 {
        None
    } else {
        Some(unit_share(amount, total))
    }
}

/// What `deposit` gets for a per-unit increase of `delta`; `None` where it
/// exceeds 64 bits.
pub fn share(deposit: u64, delta: u128) -> (r: Option<u64>)
    ensures
        r == if spec_share(deposit as nat, delta as nat) <= u64::MAX {
            Some(spec_share(deposit as nat, delta as nat) as u64)
        } else {
            None
        },
{
    match (deposit as u128).checked_mul(delta) {
        Some(product) => {
            let amount: u128 = product / SCALE_FACTOR;
            if amount > u64::MAX as u128 {
                None
            } else {
                Some(amount as u64)
            }
        },
        None => {
            assert((deposit * delta) / (SCALE_FACTOR as int) > u64::MAX);
            None
        },
    }
}

} // verus!
