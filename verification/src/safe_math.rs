//! Overflow-checked royalty and fee arithmetic on sale prices.

use vstd::prelude::*;

use crate::types::{Error, BPS_DENOMINATOR, MAX_ROYALTY_BPS};

verus! {

/// `bps` basis points of `amount`, rounded down.
pub open spec fn bps_share(amount: int, bps: int) -> int {
    amount * bps / 10_000
}

/// Whether `amount * bps` fits in an `i128`.
pub open spec fn product_fits(amount: int, bps: int) -> bool {
    amount * bps <= i128::MAX
}

/// Result of [`safe_royalty_amount`] on the given inputs.
pub open spec fn royalty_amount_result(sale_price: int, bps: int) -> Result<i128, Error> {
    if sale_price <= 0 {
        Err(Error::InvalidSalePrice)
    } else if bps > MAX_ROYALTY_BPS {
        Err(Error::InvalidBasisPoints)
    } else if !product_fits(sale_price, bps) {
        Err(Error::RoyaltyOverflow)
    } else {
        Ok(bps_share(sale_price, bps) as i128)
    }
}

/// A share of a positive amount lies between zero and the amount itself
/// when the rate is at most 100 %.
pub proof fn lemma_bps_share_bounds(amount: int, bps: int)
    requires
        amount > 0,
        0 <= bps <= 10_000,
    ensures
        0 <= bps_share(amount, bps) <= amount,
        bps == 0 ==> bps_share(amount, bps) == 0,
        bps == 10_000 ==> bps_share(amount, bps) == amount,
{
    assert(0 <= amount * bps) by (nonlinear_arith)
        requires
            amount > 0,
            bps >= 0,
    ;
    assert(amount * bps <= amount * 10_000) by (nonlinear_arith)
        requires
            amount > 0,
            bps <= 10_000,
    ;
    assert((amount * 10_000) / 10_000 == amount) by (nonlinear_arith);
    assert(amount * bps / 10_000 <= amount * 10_000 / 10_000) by (nonlinear_arith)
        requires
            amount * bps <= amount * 10_000,
    ;
    assert(amount * 0 == 0) by (nonlinear_arith);
}

/// `amount * bps` computed in `i128`, or `None` when it overflows.
fn checked_product(amount: i128, bps: u32) -> (r: Option<i128>)
    requires
        amount > 0,
    ensures
        r matches Some(p) ==> p == amount * bps && product_fits(amount as int, bps as int),
        r is None ==> !product_fits(amount as int, bps as int),
{
    let b: i128 = bps as i128;
    let r = amount.checked_mul(b);
    proof {
        assert(amount * b >= 0) by (nonlinear_arith)
            requires
                amount > 0,
                b >= 0,
        ;
    }
    r
}

/// Royalty owed on a sale: `sale_price * bps / 10 000`, rounded down.
///
/// # Errors
/// * [`Error::InvalidSalePrice`] — `sale_price <= 0`.
/// * [`Error::InvalidBasisPoints`] — `bps > 10 000`.
/// * [`Error::RoyaltyOverflow`] — `sale_price * bps` does not fit in `i128`.
pub fn safe_royalty_amount(sale_price: i128, bps: u32) -> (r: Result<i128, Error>)
    ensures
        r == royalty_amount_result(sale_price as int, bps as int),
        r matches Ok(a) ==> 0 <= a <= sale_price,
{
    if sale_price <= 0 {
        return Err(Error::InvalidSalePrice);
    }
    if bps > MAX_ROYALTY_BPS {
        return Err(Error::InvalidBasisPoints);
    }
    match checked_product(sale_price, bps) {
        None => Err(Error::RoyaltyOverflow),
        Some(p) => {
            proof {
                lemma_bps_share_bounds(sale_price as int, bps as int);
            }
            Ok(p / BPS_DENOMINATOR)
        },
    }
}

/// Result of [`validate_total_deduction_amount`] on the given inputs.
pub open spec fn deduction_result(sale_price: int, royalty_bps: int, fee_bps: int) -> Result<(i128, i128), Error> {
    if sale_price <= 0 {
        Err(Error::InvalidSalePrice)
    } else if !product_fits(sale_price, royalty_bps) || !product_fits(sale_price, fee_bps) {
        Err(Error::RoyaltyOverflow)
    } else if bps_share(sale_price, royalty_bps) + bps_share(sale_price, fee_bps) > sale_price {
        Err(Error::TotalDeductionsExceedSalePrice)
    } else {
        Ok((bps_share(sale_price, royalty_bps) as i128, bps_share(sale_price, fee_bps) as i128))
    }
}

/// Royalty and platform-fee amounts of a sale, checked to leave a
/// non-negative remainder for the seller.
///
/// Returns `(royalty_amount, platform_fee_amount)`.
///
/// # Errors
/// * [`Error::InvalidSalePrice`] — `sale_price <= 0`.
/// * [`Error::RoyaltyOverflow`] — a product with the sale price overflows.
/// * [`Error::TotalDeductionsExceedSalePrice`] — the two amounts together
///   exceed the sale price.
pub fn validate_total_deduction_amount(sale_price: i128, royalty_bps: u32, platform_fee_bps: u32) -> (r: Result<(i128, i128), Error>)
    ensures
        r == deduction_result(sale_price as int, royalty_bps as int, platform_fee_bps as int),
        r matches Ok((ra, fa)) ==> ra >= 0 && fa >= 0 && ra + fa <= sale_price,
{
    if sale_price <= 0 {
        return Err(Error::InvalidSalePrice);
    }
    let rp = checked_product(sale_price, royalty_bps);
    let fp = checked_product(sale_price, platform_fee_bps);
    match (rp, fp) {
        (Some(r), Some(f)) => {
            let royalty = r / BPS_DENOMINATOR;
            let fee = f / BPS_DENOMINATOR;
            proof {
                assert(royalty >= 0 && fee >= 0);
            }
            if royalty > sale_price - fee {
                Err(Error::TotalDeductionsExceedSalePrice)
            } else {
                Ok((royalty, fee))
            }
        },
        _ => Err(Error::RoyaltyOverflow),
    }
}

/// A share of a positive amount at a non-negative rate is not negative.
pub proof fn lemma_bps_share_bounds_nonneg(amount: int, bps: int)
    requires
        amount > 0,
        bps >= 0,
    ensures
        bps_share(amount, bps) >= 0,
{
    assert(0 <= amount * bps) by (nonlinear_arith)
        requires
            amount > 0,
            bps >= 0,
    ;
}

} // verus!
