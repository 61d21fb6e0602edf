//! The simple listing store: at most one active listing request per token,
//! each with its own listing ID.

use vstd::prelude::*;

use crate::env::{Env, InstanceStorage, PersistentStorage};
use crate::event_emitters::emit_nft_listed;
use crate::events::{ContractEvent, NftListedEvent};
use crate::listing_id_generator::{generate_listing_id, next_listing_of};
use crate::listing_request::ListingRequest;
use crate::types::{Error, ListingId, TokenId};

verus! {

broadcast use vstd::std_specs::hash::group_hash_axioms;

/// Outcome of [`create_listing`].
pub open spec fn create_listing_error(env: Env, listing: ListingRequest) -> Option<Error> {
    if env.persistent.active_listings@.contains_key(listing.token_id) {
        Some(Error::DuplicateListing)
    } else if next_listing_of(env) == u64::MAX {
        Some(Error::InvalidLimit)
    } else {
        None
    }
}

/// Store `listing` as the active listing of its token under a fresh listing
/// ID, which is written into `listing` and returned, and publish a listing
/// event.
///
/// # Errors
/// [`Error::DuplicateListing`] when the token already has an active listing,
/// [`Error::InvalidLimit`] when listing IDs are exhausted. On error nothing
/// changes.
pub fn create_listing(env: &mut Env, listing: &mut ListingRequest) -> (r: Result<ListingId, Error>)
    ensures
        r is Err <==> create_listing_error(*old(env), *old(listing)) is Some,
        r matches Err(e) ==> create_listing_error(*old(env), *old(listing)) == Some(e) && *final(env) == *old(env)
            && *final(listing) == *old(listing),
        r matches Ok(id) ==> {
            let l = ListingRequest { listing_id: id, ..*old(listing) };
            &&& id == next_listing_of(*old(env))
            &&& *final(listing) == l
            &&& final(env).instance == (InstanceStorage { next_listing_id: Some((id + 1) as ListingId), ..old(env).instance })
            &&& final(env).persistent.active_listings@ == old(env).persistent.active_listings@.insert(l.token_id, l)
            &&& final(env).persistent == (PersistentStorage {
                active_listings: final(env).persistent.active_listings,
                ..old(env).persistent
            })
            &&& final(env).events@ == old(env).events@.push(ContractEvent::NftListed(NftListedEvent {
                listing_id: id,
                token_id: l.token_id,
                seller: l.seller,
                price: l.price,
                asset: l.payment_asset,
                timestamp: old(env).timestamp,
            }))
            &&& final(env).timestamp == old(env).timestamp
            &&& final(env).contract_address == old(env).contract_address && final(env).auth == old(env).auth
        },
{
    if env.persistent.active_listings.contains_key(&listing.token_id) {
        return Err(Error::DuplicateListing);
    }
    let listing_id = generate_listing_id(env)?;
    listing.listing_id = listing_id;
    env.persistent.active_listings.insert(listing.token_id, *listing);
    let ts = env.timestamp;
    emit_nft_listed(env, listing_id, listing.token_id, listing.seller, listing.price, listing.payment_asset, ts);
    assert(env.events@ =~= old(env).events@.push(env.events@.last()));
    Ok(listing_id)
}

/// The active listing request of `token_id`.
///
/// # Errors
/// [`Error::ListingNotFound`] when there is none.
pub fn get_listing(env: &Env, token_id: TokenId) -> (r: Result<ListingRequest, Error>)
    ensures
        r == (if env.persistent.active_listings@.contains_key(token_id) {
            Ok(env.persistent.active_listings@[token_id])
        } else {
            Err(Error::ListingNotFound)
        }),
{
    match env.persistent.active_listings.get(&token_id) {
        Some(l) => Ok(*l),
        None => Err(Error::ListingNotFound),
    }
}

/// Remove the active listing request of `token_id`.
///
/// # Errors
/// [`Error::ListingNotFound`] when there is none; nothing changes.
pub fn remove_listing(env: &mut Env, token_id: TokenId) -> (r: Result<(), Error>)
    ensures
        r is Ok <==> old(env).persistent.active_listings@.contains_key(token_id),
        r is Err ==> r == Err::<(), Error>(Error::ListingNotFound) && *final(env) == *old(env),
        r is Ok ==> final(env).persistent.active_listings@ == old(env).persistent.active_listings@.remove(token_id),
        final(env).persistent == (PersistentStorage {
            active_listings: final(env).persistent.active_listings,
            ..old(env).persistent
        }),
        final(env).instance == old(env).instance,
        final(env).events == old(env).events,
        final(env).timestamp == old(env).timestamp,
        final(env).contract_address == old(env).contract_address && final(env).auth == old(env).auth,
{
    if !env.persistent.active_listings.contains_key(&token_id) {
        return Err(Error::ListingNotFound);
    }
    env.persistent.active_listings.remove(&token_id);
    Ok(())
}

} // verus!
