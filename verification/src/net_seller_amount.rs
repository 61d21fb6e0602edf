//! Net seller amount: split a sale price between the royalty recipient and
//! the seller so that the two parts always add back up to the sale price.

use vstd::prelude::*;

use crate::safe_math::{bps_share, product_fits, royalty_amount_result, safe_royalty_amount};
use crate::types::{Error, MAX_ROYALTY_BPS};

verus! {

/// Result of a net seller amount calculation.
#[derive(Debug, Clone, Copy, PartialEq, Eq, Structural)]
pub struct NetSellerAmount {
    /// Amount owed to the royalty recipient.
    pub royalty_amount: i128,
    /// Amount remaining for the seller.
    pub seller_amount: i128,
}

/// Result of [`calculate_net_seller_amount`] on the given inputs.
pub open spec fn net_seller_result(sale_price: int, royalty_bps: int) -> Result<NetSellerAmount, Error> {
    match royalty_amount_result(sale_price, royalty_bps) {
        Ok(r) => Ok(NetSellerAmount { royalty_amount: r, seller_amount: (sale_price - r) as i128 }),
        Err(e) => Err(e),
    }
}

/// Split `sale_price` into the royalty at `royalty_bps` basis points and the
/// seller's remainder.
///
/// # Errors
/// * [`Error::InvalidSalePrice`] — `sale_price <= 0`.
/// * [`Error::InvalidBasisPoints`] — `royalty_bps > 10 000`.
/// * [`Error::RoyaltyOverflow`] — `sale_price * royalty_bps` overflows `i128`.
pub fn calculate_net_seller_amount(sale_price: i128, royalty_bps: u32) -> (r: Result<NetSellerAmount, Error>)
    ensures
        r == net_seller_result(sale_price as int, royalty_bps as int),
        r matches Ok(n) ==> n.royalty_amount + n.seller_amount == sale_price
            && n.royalty_amount == bps_share(sale_price as int, royalty_bps as int)
            && 0 <= n.royalty_amount && 0 <= n.seller_amount,
        r is Ok <==> (sale_price > 0 && royalty_bps <= MAX_ROYALTY_BPS && product_fits(sale_price as int, royalty_bps as int)),
{
    let royalty_amount = safe_royalty_amount(sale_price, royalty_bps)?;
    let seller_amount = sale_price - royalty_amount;
    Ok(NetSellerAmount { royalty_amount, seller_amount })
}

/// For every accepted sale, the royalty and the seller's amount add up to the
/// sale price, neither is negative, a zero rate leaves everything to the
/// seller and a 100 % rate leaves everything to the royalty recipient.
pub proof fn lemma_net_seller_amount_conserves_sale_price(sale_price: i128, royalty_bps: u32)
    requires
        net_seller_result(sale_price as int, royalty_bps as int) is Ok,
    ensures
        ({
            let n = net_seller_result(sale_price as int, royalty_bps as int)->Ok_0;
            &&& n.royalty_amount + n.seller_amount == sale_price
            &&& 0 <= n.royalty_amount <= sale_price
            &&& 0 <= n.seller_amount <= sale_price
            &&& royalty_bps == 0 ==> n.seller_amount == sale_price
            &&& royalty_bps == 10_000 ==> n.royalty_amount == sale_price
        }),
{
    crate::safe_math::lemma_bps_share_bounds(sale_price as int, royalty_bps as int);
}

} // verus!
