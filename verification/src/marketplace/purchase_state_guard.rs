//! Checks that a listing can be bought: it exists, is not sold, is active
//! and has not expired.

use vstd::prelude::*;

use crate::env::Env;
use crate::marketplace::listing_storage;
use crate::marketplace::types::{expired, Listing, ListingStatus};
use crate::types::{Error, TokenId};

verus! {

/// The listing of `token_id`.
///
/// # Errors
/// [`Error::ListingNotFound`] when the token has no listing.
pub fn check_listing_exists(env: &Env, token_id: TokenId) -> (r: Result<Listing, Error>)
    ensures
        r == (if env.persistent.listings@.contains_key(token_id) {
            Ok(env.persistent.listings@[token_id])
        } else {
            Err(Error::ListingNotFound)
        }),
{
    match listing_storage::get_listing(env, token_id) {
        Ok(l) => Ok(l),
        Err(_) => Err(Error::ListingNotFound),
    }
}

/// # Errors
/// [`Error::ListingAlreadySold`] when the listing is sold.
pub fn check_listing_not_sold(listing: &Listing) -> (r: Result<(), Error>)
    ensures
        r == (if listing.status == ListingStatus::Sold { Err(Error::ListingAlreadySold) } else { Ok(()) }),
{
    if listing.status == ListingStatus::Sold {
        return Err(Error::ListingAlreadySold);
    }
    Ok(())
}

/// # Errors
/// [`Error::ListingNotActive`] when the listing is not active.
pub fn check_listing_active(listing: &Listing) -> (r: Result<(), Error>)
    ensures
        r == (if listing.status != ListingStatus::Active { Err(Error::ListingNotActive) } else { Ok(()) }),
{
    if listing.status != ListingStatus::Active {
        return Err(Error::ListingNotActive);
    }
    Ok(())
}

/// # Errors
/// [`Error::ListingExpired`] when the listing has an expiration at or before
/// the ledger time.
pub fn check_listing_not_expired(env: &Env, listing: &Listing) -> (r: Result<(), Error>)
    ensures
        r == (if expired(listing.expires_at, env.timestamp) { Err(Error::ListingExpired) } else { Ok(()) }),
{
    if listing.expires_at > 0 {
        let now = env.timestamp;
        if listing.expires_at <= now {
            return Err(Error::ListingExpired);
        }
    }
    Ok(())
}

/// Outcome of the purchasability checks on `listing` at time `now`.
pub open spec fn purchasable_result(listing: Listing, now: u64) -> Result<(), Error> {
    if listing.status == ListingStatus::Sold {
        Err(Error::ListingAlreadySold)
    } else if listing.status != ListingStatus::Active {
        Err(Error::ListingNotActive)
    } else if expired(listing.expires_at, now) {
        Err(Error::ListingExpired)
    } else {
        Ok(())
    }
}

/// Checks, in order, that the listing is not sold, is active and has not
/// expired.
pub fn require_purchasable_listing(env: &Env, listing: &Listing) -> (r: Result<(), Error>)
    ensures
        r == purchasable_result(*listing, env.timestamp),
{
    check_listing_not_sold(listing)?;
    check_listing_active(listing)?;
    check_listing_not_expired(env, listing)?;
    Ok(())
}

/// Outcome of [`get_purchasable_listing`].
pub open spec fn purchasable_listing_result(env: Env, token_id: TokenId) -> Result<Listing, Error> {
    if !env.persistent.listings@.contains_key(token_id) {
        Err(Error::ListingNotFound)
    } else {
        match purchasable_result(env.persistent.listings@[token_id], env.timestamp) {
            Ok(_) => Ok(env.persistent.listings@[token_id]),
            Err(e) => Err(e),
        }
    }
}

/// Checks that the listing of `token_id` exists and can be bought.
pub fn require_purchasable(env: &Env, token_id: TokenId) -> (r: Result<(), Error>)
    ensures
        r == (match purchasable_listing_result(*env, token_id) {
            Ok(_) => Ok(()),
            Err(e) => Err(e),
        }),
{
    let listing = check_listing_exists(env, token_id)?;
    require_purchasable_listing(env, &listing)
}

/// The listing of `token_id`, checked to exist and be purchasable.
pub fn get_purchasable_listing(env: &Env, token_id: TokenId) -> (r: Result<Listing, Error>)
    ensures
        r == purchasable_listing_result(*env, token_id),
{
    let listing = check_listing_exists(env, token_id)?;
    require_purchasable_listing(env, &listing)?;
    Ok(listing)
}

} // verus!
