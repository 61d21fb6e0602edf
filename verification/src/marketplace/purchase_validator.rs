//! Pre-conditions of buying a listing with a given payment.

use vstd::prelude::*;

use crate::controls;
use crate::env::Env;
use crate::marketplace::listing_storage;
use crate::marketplace::types::{expired, Listing, ListingStatus, PurchaseRequest};
use crate::ownership;
use crate::types::{Address, Error, TokenId};

verus! {

/// Highest accepted purchase price: half of `i128::MAX`.
pub const MAX_PURCHASE_PRICE: i128 = 85070591730234615865843651857942052863;

/// Outcome of [`validate_purchase`].
pub open spec fn purchase_check(
    env: Env,
    buyer: Address,
    listing: Listing,
    payment_asset: Address,
    payment_amount: i128,
) -> Result<(), Error> {
    if env.instance.paused {
        Err(Error::ContractPaused)
    } else if listing.status != ListingStatus::Active {
        Err(Error::ListingNotActive)
    } else if expired(listing.expires_at, env.timestamp) {
        Err(Error::OfferExpired)
    } else if buyer == listing.seller {
        Err(Error::SelfTransferNotAllowed)
    } else if env.persistent.blacklisted@.contains(buyer) {
        Err(Error::Unauthorized)
    } else if payment_asset != listing.payment_asset {
        Err(Error::UnsupportedAsset)
    } else if !controls::supported(env, payment_asset) {
        Err(Error::UnsupportedAsset)
    } else if listing.price <= 0 {
        Err(Error::InvalidSalePrice)
    } else if listing.price > MAX_PURCHASE_PRICE {
        Err(Error::PriceOverflow)
    } else if payment_amount < listing.price {
        Err(Error::InvalidSalePrice)
    } else if !env.persistent.token_owners@.contains_key(listing.token_id) {
        Err(Error::TokenNotFound)
    } else if env.persistent.token_owners@[listing.token_id] != listing.seller {
        Err(Error::Unauthorized)
    } else if env.persistent.frozen@.contains(listing.token_id) {
        Err(Error::Unauthorized)
    } else {
        Ok(())
    }
}

/// Check that `buyer` may buy `listing` paying `payment_amount` of
/// `payment_asset`. In order: the contract is not paused; the listing is
/// active and not expired; the buyer is not the seller and not blacklisted;
/// the asset is the listing's and is supported; the price is positive, at
/// most [`MAX_PURCHASE_PRICE`] and covered by the payment; the seller still
/// owns the token; and the token is not frozen.
pub fn validate_purchase(
    env: &Env,
    buyer: Address,
    listing: &Listing,
    payment_asset: Address,
    payment_amount: i128,
) -> (r: Result<(), Error>)
    ensures
        r == purchase_check(*env, buyer, *listing, payment_asset, payment_amount),
{
    controls::require_not_paused(env)?;
    if listing.status != ListingStatus::Active {
        return Err(Error::ListingNotActive);
    }
    if listing.expires_at > 0 {
        let now = env.timestamp;
        if listing.expires_at <= now {
            return Err(Error::OfferExpired);
        }
    }
    if buyer == listing.seller {
        return Err(Error::SelfTransferNotAllowed);
    }
    if controls::is_blacklisted(env, buyer) {
        return Err(Error::Unauthorized);
    }
    if payment_asset != listing.payment_asset {
        return Err(Error::UnsupportedAsset);
    }
    if !controls::is_supported(env, payment_asset) {
        return Err(Error::UnsupportedAsset);
    }
    if listing.price <= 0 {
        return Err(Error::InvalidSalePrice);
    }
    if listing.price > MAX_PURCHASE_PRICE {
        return Err(Error::PriceOverflow);
    }
    if payment_amount < listing.price {
        return Err(Error::InvalidSalePrice);
    }
    let current_owner = ownership::get_owner(env, listing.token_id)?;
    if current_owner != listing.seller {
        return Err(Error::Unauthorized);
    }
    if controls::is_frozen(env, listing.token_id) {
        return Err(Error::Unauthorized);
    }
    Ok(())
}

/// Load the listing of `token_id` and check the purchase against it.
///
/// # Errors
/// [`Error::TokenNotFound`] when the token has no listing, else the errors of
/// [`validate_purchase`].
pub fn validate_purchase_for_token(
    env: &Env,
    token_id: TokenId,
    buyer: Address,
    payment_asset: Address,
    payment_amount: i128,
) -> (r: Result<Listing, Error>)
    ensures
        r == (if !env.persistent.listings@.contains_key(token_id) {
            Err(Error::TokenNotFound)
        } else {
            match purchase_check(*env, buyer, env.persistent.listings@[token_id], payment_asset, payment_amount) {
                Ok(_) => Ok(env.persistent.listings@[token_id]),
                Err(e) => Err(e),
            }
        }),
{
    let listing = listing_storage::get_listing(env, token_id)?;
    validate_purchase(env, buyer, &listing, payment_asset, payment_amount)?;
    Ok(listing)
}

/// Check a purchase request against `listing`, with the request's maximum
/// price as the payment.
pub fn validate_purchase_request(env: &Env, request: &PurchaseRequest, listing: &Listing) -> (r: Result<(), Error>)
    ensures
        r == purchase_check(*env, request.buyer, *listing, request.payment_asset, request.max_price),
{
    validate_purchase(env, request.buyer, listing, request.payment_asset, request.max_price)
}

} // verus!
