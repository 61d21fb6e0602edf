//! Pre-conditions of creating a listing, and cancellation of a listing.

use vstd::prelude::*;

use crate::controls;
use crate::env::Env;
use crate::events::{ContractEvent, MarketListingCancelledEvent};
use crate::marketplace::listing_storage;
use crate::marketplace::types::{Listing, ListingStatus};
use crate::ownership;
use crate::types::{Address, Error, TokenId};

verus! {

/// Highest accepted listing price: half of `i128::MAX`, which leaves room
/// for the basis-point products computed on a sale.
pub const MAX_LISTING_PRICE: i128 = 85070591730234615865843651857942052863;

/// Outcome of [`validate_listing`].
pub open spec fn listing_check(
    env: Env,
    seller: Address,
    token_id: TokenId,
    price: i128,
    payment_asset: Address,
    expires_at: u64,
) -> Result<(), Error> {
    if env.instance.paused {
        Err(Error::ContractPaused)
    } else if !env.persistent.token_owners@.contains_key(token_id) {
        Err(Error::TokenNotFound)
    } else if env.persistent.token_owners@[token_id] != seller {
        Err(Error::Unauthorized)
    } else if price <= 0 {
        Err(Error::InvalidSalePrice)
    } else if price > MAX_LISTING_PRICE {
        Err(Error::PriceOverflow)
    } else if !controls::supported(env, payment_asset) {
        Err(Error::UnsupportedAsset)
    } else if env.persistent.listings@.contains_key(token_id)
        && env.persistent.listings@[token_id].status == ListingStatus::Active {
        Err(Error::DuplicateRecord)
    } else if expires_at > 0 && expires_at <= env.timestamp {
        Err(Error::InvalidConfig)
    } else {
        Ok(())
    }
}

/// Check every pre-condition of listing `token_id` for sale, in this order:
/// the contract is not paused, the token exists and `seller` owns it, the
/// price is positive and at most [`MAX_LISTING_PRICE`], the payment asset is
/// supported, the token has no active listing, and the expiration (when set)
/// lies in the future.
pub fn validate_listing(
    env: &Env,
    seller: Address,
    token_id: TokenId,
    price: i128,
    payment_asset: Address,
    expires_at: u64,
) -> (r: Result<(), Error>)
    ensures
        r == listing_check(*env, seller, token_id, price, payment_asset, expires_at),
{
    controls::require_not_paused(env)?;
    let owner = ownership::get_owner(env, token_id)?;
    if seller != owner {
        return Err(Error::Unauthorized);
    }
    if price <= 0 {
        return Err(Error::InvalidSalePrice);
    }
    if price > MAX_LISTING_PRICE {
        return Err(Error::PriceOverflow);
    }
    if !controls::is_supported(env, payment_asset) {
        return Err(Error::UnsupportedAsset);
    }
    match listing_storage::get_listing(env, token_id) {
        Ok(existing) => {
            if existing.status == ListingStatus::Active {
                return Err(Error::DuplicateRecord);
            }
        },
        Err(_) => {},
    }
    if expires_at > 0 {
        let now = env.timestamp;
        if expires_at <= now {
            return Err(Error::InvalidConfig);
        }
    }
    Ok(())
}

/// Outcome of [`cancel_listing`].
pub open spec fn cancel_check(env: Env, caller: Address, token_id: TokenId) -> Result<(), Error> {
    if !env.persistent.listings@.contains_key(token_id) {
        Err(Error::TokenNotFound)
    } else if env.persistent.listings@[token_id].status != ListingStatus::Active {
        Err(Error::ListingNotActive)
    } else if !(caller == env.persistent.listings@[token_id].seller
        || controls::is_operator_spec(env, env.persistent.listings@[token_id].seller, caller)
        || controls::is_admin_spec(env, caller)) {
        Err(Error::Unauthorized)
    } else {
        Ok(())
    }
}

/// Cancel the active listing of `token_id` on behalf of `caller`, who must be
/// the seller, an operator approved by the seller, or the admin, and who
/// must have authorized the invocation. Publishes a cancellation event.
///
/// # Errors
/// * [`Error::TokenNotFound`] — the token has no listing.
/// * [`Error::ListingNotActive`] — the listing is sold or cancelled.
/// * [`Error::Unauthorized`] — the caller may not cancel it.
///
/// On error nothing changes.
pub fn cancel_listing(env: &mut Env, caller: Address, token_id: TokenId) -> (r: Result<(), Error>)
    requires
        old(env).authorizes(caller),
    ensures
        r == cancel_check(*old(env), caller, token_id),
        r is Err ==> *final(env) == *old(env),
        r is Ok ==> {
            let l = old(env).persistent.listings@[token_id];
            &&& final(env).persistent.listings@ == old(env).persistent.listings@.insert(
                token_id,
                Listing { status: ListingStatus::Cancelled, ..l },
            )
            &&& final(env).persistent == listing_storage::with_listings(old(env).persistent, final(env).persistent)
            &&& final(env).events@ == old(env).events@.push(ContractEvent::MarketListingCancelled(
                MarketListingCancelledEvent {
                    token_id,
                    seller: l.seller,
                    cancelled_by: caller,
                    timestamp: old(env).timestamp,
                },
            ))
            &&& final(env).instance == old(env).instance
            &&& final(env).timestamp == old(env).timestamp
            &&& final(env).contract_address == old(env).contract_address && final(env).auth == old(env).auth
        },
{
    let listing = listing_storage::get_listing(env, token_id)?;
    if listing.status != ListingStatus::Active {
        return Err(Error::ListingNotActive);
    }
    let is_seller = caller == listing.seller;
    let is_operator = controls::is_operator(env, listing.seller, caller);
    let is_admin = controls::is_admin(env, caller);
    if !is_seller && !is_operator && !is_admin {
        return Err(Error::Unauthorized);
    }
    let r = listing_storage::update_listing_status(env, token_id, ListingStatus::Cancelled);
    if r.is_err() {
        return r;
    }
    let timestamp = env.timestamp;
    env.publish(ContractEvent::MarketListingCancelled(MarketListingCancelledEvent {
        token_id,
        seller: listing.seller,
        cancelled_by: caller,
        timestamp,
    }));
    Ok(())
}

/// A listing is cancelled at most once: a cancelled listing cannot be
/// cancelled again.
pub proof fn lemma_cancel_once(env: Env, caller: Address, token_id: TokenId)
    requires
        env.persistent.listings@.contains_key(token_id),
        env.persistent.listings@[token_id].status == ListingStatus::Cancelled,
    ensures
        cancel_check(env, caller, token_id) == Err::<(), Error>(Error::ListingNotActive),
{
}

/// A token with an active listing cannot be listed again.
pub proof fn lemma_no_second_active_listing(
    env: Env,
    seller: Address,
    token_id: TokenId,
    price: i128,
    payment_asset: Address,
    expires_at: u64,
)
    requires
        env.persistent.listings@.contains_key(token_id),
        env.persistent.listings@[token_id].status == ListingStatus::Active,
    ensures
        listing_check(env, seller, token_id, price, payment_asset, expires_at) is Err,
{
}

/// Only an active listing blocks a new one: when the contract is not
/// paused, the seller owns the token, the price lies in
/// `1..=MAX_LISTING_PRICE`, the asset is accepted (no currency configured,
/// or the asset among them) and the expiry is `0` or in the future, a token
/// whose stored listing is sold or cancelled (or that has none) may be listed
/// again, while one with an active listing is refused with
/// [`Error::DuplicateRecord`].
pub proof fn lemma_relisting_after_sale_or_cancel(
    env: Env,
    seller: Address,
    token_id: TokenId,
    price: i128,
    payment_asset: Address,
    expires_at: u64,
)
    requires
        !env.instance.paused,
        env.persistent.token_owners@.contains_key(token_id),
        env.persistent.token_owners@[token_id] == seller,
        0 < price <= MAX_LISTING_PRICE,
        env.instance.supported_currencies@.len() == 0 || env.instance.supported_currencies@.contains(payment_asset),
        expires_at == 0 || expires_at > env.timestamp,
    ensures
        !env.persistent.listings@.contains_key(token_id) ==> listing_check(env, seller, token_id, price, payment_asset, expires_at)
            == Ok::<(), Error>(()),
        env.persistent.listings@.contains_key(token_id) && (env.persistent.listings@[token_id].status
            == ListingStatus::Sold || env.persistent.listings@[token_id].status == ListingStatus::Cancelled)
            ==> listing_check(env, seller, token_id, price, payment_asset, expires_at) == Ok::<(), Error>(()),
        env.persistent.listings@.contains_key(token_id) && env.persistent.listings@[token_id].status
            == ListingStatus::Active ==> listing_check(env, seller, token_id, price, payment_asset, expires_at)
            == Err::<(), Error>(Error::DuplicateRecord),
{
}

} // verus!
