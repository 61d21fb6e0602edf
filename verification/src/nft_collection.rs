//! Collections: registered collection IDs, the collection of each token, and
//! the members of each collection.

use vstd::prelude::*;

use crate::env::{Env, PersistentStorage};
use crate::ownership::{contains_token, only_persistent_changed};
use crate::types::{Error, TokenId};

verus! {

broadcast use vstd::std_specs::hash::group_hash_axioms;

/// Register `collection_id`.
pub fn register_collection(env: &mut Env, collection_id: u32)
    ensures
        final(env).persistent.registered_collections@ == old(env).persistent.registered_collections@.insert(collection_id),
        final(env).persistent == (PersistentStorage {
            registered_collections: final(env).persistent.registered_collections,
            ..old(env).persistent
        }),
        only_persistent_changed(*old(env), *final(env)),
{
    env.persistent.registered_collections.insert(collection_id);
}

/// Whether `collection_id` is registered.
pub fn collection_exists(env: &Env, collection_id: u32) -> (r: bool)
    ensures
        r == env.persistent.registered_collections@.contains(collection_id),
{
    env.persistent.registered_collections.contains(&collection_id)
}

/// The members of a collection, as stored (none when unset).
pub open spec fn members_of(env: Env, collection_id: u32) -> Seq<TokenId> {
    if env.persistent.collection_members@.contains_key(collection_id) {
        env.persistent.collection_members@[collection_id]@
    } else {
        Seq::empty()
    }
}

/// The members of `collection_id`, in the order they joined.
pub fn get_collection_members(env: &Env, collection_id: u32) -> (r: Vec<TokenId>)
    ensures
        r@ == members_of(*env, collection_id),
{
    match env.persistent.collection_members.get(&collection_id) {
        Some(v) => {
            let c = v.clone();
            assert(c@ =~= v@);
            c
        },
        None => Vec::new(),
    }
}

/// Whether `token_id` is a member of `collection_id`.
pub fn collection_contains_token(env: &Env, collection_id: u32, token_id: TokenId) -> (r: bool)
    ensures
        r == members_of(*env, collection_id).contains(token_id),
{
    let members = get_collection_members(env, collection_id);
    contains_token(&members, token_id)
}

/// Outcome of [`associate_nft`].
pub open spec fn associate_check(env: Env, token_id: TokenId, collection_id: u32) -> Result<(), Error> {
    if !env.persistent.registered_collections@.contains(collection_id) {
        Err(Error::CollectionNotFound)
    } else if members_of(env, collection_id).contains(token_id) {
        Err(Error::DuplicateRecord)
    } else {
        Ok(())
    }
}

/// Add `token_id` to a registered collection and record the collection as
/// the token's.
///
/// # Errors
/// [`Error::CollectionNotFound`] (not registered), [`Error::DuplicateRecord`]
/// (already a member). On error nothing changes.
pub fn associate_nft(env: &mut Env, token_id: TokenId, collection_id: u32) -> (r: Result<(), Error>)
    ensures
        r == associate_check(*old(env), token_id, collection_id),
        r is Err ==> *final(env) == *old(env),
        r is Ok ==> final(env).persistent.token_collection@ == old(env).persistent.token_collection@.insert(token_id, collection_id),
        r is Ok ==> final(env).persistent.collection_members@ == old(env).persistent.collection_members@.insert(
            collection_id,
            final(env).persistent.collection_members@[collection_id],
        ),
        r is Ok ==> members_of(*final(env), collection_id) == members_of(*old(env), collection_id).push(token_id),
        final(env).persistent == (PersistentStorage {
            token_collection: final(env).persistent.token_collection,
            collection_members: final(env).persistent.collection_members,
            ..old(env).persistent
        }),
        only_persistent_changed(*old(env), *final(env)),
{
    if !collection_exists(env, collection_id) {
        return Err(Error::CollectionNotFound);
    }
    if collection_contains_token(env, collection_id, token_id) {
        return Err(Error::DuplicateRecord);
    }
    env.persistent.token_collection.insert(token_id, collection_id);
    let mut members = get_collection_members(env, collection_id);
    members.push(token_id);
    env.persistent.collection_members.insert(collection_id, members);
    Ok(())
}

/// The collection of `token_id`.
///
/// # Errors
/// [`Error::TokenNotFound`] when it has none.
pub fn get_nft_collection(env: &Env, token_id: TokenId) -> (r: Result<u32, Error>)
    ensures
        r == (if env.persistent.token_collection@.contains_key(token_id) {
            Ok(env.persistent.token_collection@[token_id])
        } else {
            Err(Error::TokenNotFound)
        }),
{
    match env.persistent.token_collection.get(&token_id) {
        Some(c) => Ok(*c),
        None => Err(Error::TokenNotFound),
    }
}

/// A token joins a collection at most once: after a successful association
/// it is a member, and associating it again is refused.
pub proof fn lemma_associate_once(e1: Env, token_id: TokenId, collection_id: u32, before: Seq<TokenId>)
    requires
        e1.persistent.registered_collections@.contains(collection_id),
        members_of(e1, collection_id) == before.push(token_id),
    ensures
        members_of(e1, collection_id).contains(token_id),
        associate_check(e1, token_id, collection_id) == Err::<(), Error>(Error::DuplicateRecord),
{
    assert(members_of(e1, collection_id)[before.len() as int] == token_id);
}

} // verus!
