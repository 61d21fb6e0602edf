//! Marketplace listing storage: one listing record per token.

use vstd::prelude::*;

use crate::env::{Env, PersistentStorage};
use crate::marketplace::types::{Listing, ListingStatus};
use crate::ownership::only_persistent_changed;
use crate::types::{Address, Error, TokenId};

verus! {

broadcast use vstd::std_specs::hash::group_hash_axioms;

/// The persistent storage with the listing records replaced by those of `p2`.
pub open spec fn with_listings(p: PersistentStorage, p2: PersistentStorage) -> PersistentStorage {
    PersistentStorage { listings: p2.listings, ..p }
}

/// `e2` differs from `e1` at most in the listing records.
pub open spec fn only_listings_changed(e1: Env, e2: Env) -> bool {
    &&& only_persistent_changed(e1, e2)
    &&& e2.persistent == with_listings(e1.persistent, e2.persistent)
}

/// Save a listing, replacing any listing of the same token.
pub fn save_listing(env: &mut Env, listing: &Listing)
    ensures
        final(env).persistent.listings@ == old(env).persistent.listings@.insert(listing.token_id, *listing),
        only_listings_changed(*old(env), *final(env)),
{
    env.persistent.listings.insert(listing.token_id, *listing);
}

/// The listing of `token_id`.
///
/// # Errors
/// [`Error::TokenNotFound`] when the token has no listing.
pub fn get_listing(env: &Env, token_id: TokenId) -> (r: Result<Listing, Error>)
    ensures
        r == (if env.persistent.listings@.contains_key(token_id) {
            Ok(env.persistent.listings@[token_id])
        } else {
            Err(Error::TokenNotFound)
        }),
{
    match env.persistent.listings.get(&token_id) {
        Some(l) => Ok(*l),
        None => Err(Error::TokenNotFound),
    }
}

/// Whether `token_id` has a listing.
pub fn has_listing(env: &Env, token_id: TokenId) -> (r: bool)
    ensures
        r == env.persistent.listings@.contains_key(token_id),
{
    env.persistent.listings.contains_key(&token_id)
}

/// Set the status of an existing listing. A sold listing keeps its status.
///
/// # Errors
/// * [`Error::TokenNotFound`] — the token has no listing.
/// * [`Error::InvalidConfig`] — the listing is already sold.
///
/// On error nothing changes.
pub fn update_listing_status(env: &mut Env, token_id: TokenId, status: ListingStatus) -> (r: Result<(), Error>)
    ensures
        r == (if !old(env).persistent.listings@.contains_key(token_id) {
            Err(Error::TokenNotFound)
        } else if old(env).persistent.listings@[token_id].status == ListingStatus::Sold {
            Err(Error::InvalidConfig)
        } else {
            Ok(())
        }),
        r is Err ==> *final(env) == *old(env),
        r is Ok ==> final(env).persistent.listings@ == old(env).persistent.listings@.insert(
            token_id,
            Listing { status, ..old(env).persistent.listings@[token_id] },
        ),
        only_listings_changed(*old(env), *final(env)),
{
    let mut listing = match get_listing(env, token_id) {
        Ok(l) => l,
        Err(e) => return Err(e),
    };
    if listing.status == ListingStatus::Sold {
        return Err(Error::InvalidConfig);
    }
    listing.status = status;
    env.persistent.listings.insert(token_id, listing);
    Ok(())
}

/// Mark a listing sold to `buyer` at the current ledger time.
///
/// # Errors
/// * [`Error::TokenNotFound`] — the token has no listing.
/// * [`Error::ListingAlreadySold`] — the listing is already sold.
///
/// On error nothing changes.
pub fn mark_as_sold(env: &mut Env, token_id: TokenId, buyer: Address) -> (r: Result<(), Error>)
    ensures
        r == (if !old(env).persistent.listings@.contains_key(token_id) {
            Err(Error::TokenNotFound)
        } else if old(env).persistent.listings@[token_id].status == ListingStatus::Sold {
            Err(Error::ListingAlreadySold)
        } else {
            Ok(())
        }),
        r is Err ==> *final(env) == *old(env),
        r is Ok ==> final(env).persistent.listings@ == old(env).persistent.listings@.insert(
            token_id,
            Listing {
                status: ListingStatus::Sold,
                buyer: Some(buyer),
                sold_at: Some(old(env).timestamp),
                ..old(env).persistent.listings@[token_id]
            },
        ),
        only_listings_changed(*old(env), *final(env)),
{
    let mut listing = match get_listing(env, token_id) {
        Ok(l) => l,
        Err(e) => return Err(e),
    };
    if listing.status == ListingStatus::Sold {
        return Err(Error::ListingAlreadySold);
    }
    listing.status = ListingStatus::Sold;
    listing.buyer = Some(buyer);
    listing.sold_at = Some(env.timestamp);
    env.persistent.listings.insert(token_id, listing);
    Ok(())
}

/// Remove the listing of `token_id`, if any.
pub fn remove_listing(env: &mut Env, token_id: TokenId)
    ensures
        final(env).persistent.listings@ == old(env).persistent.listings@.remove(token_id),
        only_listings_changed(*old(env), *final(env)),
{
    env.persistent.listings.remove(&token_id);
}

} // verus!
