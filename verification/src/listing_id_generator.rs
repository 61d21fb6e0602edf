//! Sequential listing IDs, starting at 1.

use vstd::prelude::*;

use crate::env::{Env, InstanceStorage};
use crate::fees::only_instance_changed;
use crate::types::{Error, ListingId};

verus! {

/// The listing ID the next listing receives.
pub open spec fn next_listing_of(env: Env) -> ListingId {
    match env.instance.next_listing_id {
        Some(i) => i,
        None => 1,
    }
}

/// The listing ID the next listing receives, without reserving it.
pub fn peek_next_listing_id(env: &Env) -> (r: ListingId)
    ensures
        r == next_listing_of(*env),
{
    match env.instance.next_listing_id {
        Some(i) => i,
        None => 1,
    }
}

/// Reserve and return the next listing ID.
///
/// # Errors
/// [`Error::InvalidLimit`] when the counter is at `u64::MAX`; nothing
/// changes.
pub fn generate_listing_id(env: &mut Env) -> (r: Result<ListingId, Error>)
    ensures
        r is Ok <==> next_listing_of(*old(env)) < u64::MAX,
        r is Err ==> r == Err::<ListingId, Error>(Error::InvalidLimit) && *final(env) == *old(env),
        r matches Ok(id) ==> id == next_listing_of(*old(env)) && final(env).instance == (InstanceStorage {
            next_listing_id: Some((id + 1) as ListingId),
            ..old(env).instance
        }),
        only_instance_changed(*old(env), *final(env)),
{
    let current = peek_next_listing_id(env);
    let next = match current.checked_add(1) {
        Some(n) => n,
        None => return Err(Error::InvalidLimit),
    };
    env.instance.next_listing_id = Some(next);
    Ok(current)
}

/// Listing IDs are handed out strictly increasing: after one is generated,
/// the next is one more.
pub proof fn lemma_listing_ids_increase(e0: Env, e1: Env, id: ListingId)
    requires
        id == next_listing_of(e0),
        e1.instance == (InstanceStorage { next_listing_id: Some((id + 1) as ListingId), ..e0.instance }),
        id < u64::MAX,
    ensures
        next_listing_of(e1) == id + 1,
{
}

} // verus!
