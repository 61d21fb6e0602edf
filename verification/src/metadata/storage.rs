//! Per-token metadata URI storage.

use vstd::prelude::*;

use crate::bytes::copy_bytes;
use crate::env::{Env, PersistentStorage};
use crate::ownership::only_persistent_changed;
use crate::types::{Error, TokenId};

verus! {

broadcast use vstd::std_specs::hash::group_hash_axioms;

/// The metadata URIs by token, as bytes.
pub open spec fn metadata_map(env: Env) -> Map<TokenId, Seq<u8>> {
    Map::new(
        |t: TokenId| env.persistent.metadata@.contains_key(t),
        |t: TokenId| env.persistent.metadata@[t]@,
    )
}

/// `e2` differs from `e1` at most in the metadata URIs.
pub open spec fn only_metadata_changed(e1: Env, e2: Env) -> bool {
    &&& only_persistent_changed(e1, e2)
    &&& e2.persistent == (PersistentStorage { metadata: e2.persistent.metadata, ..e1.persistent })
}

/// Store the metadata URI of `token_id`, replacing any earlier one.
pub fn save_metadata(env: &mut Env, token_id: TokenId, uri: &Vec<u8>)
    ensures
        metadata_map(*final(env)) == metadata_map(*old(env)).insert(token_id, uri@),
        only_metadata_changed(*old(env), *final(env)),
{
    env.persistent.metadata.insert(token_id, copy_bytes(uri));
    assert(metadata_map(*env) =~= metadata_map(*old(env)).insert(token_id, uri@));
}

/// The metadata URI of `token_id`.
///
/// # Errors
/// [`Error::TokenNotFound`] when none is stored.
pub fn get_metadata(env: &Env, token_id: TokenId) -> (r: Result<Vec<u8>, Error>)
    ensures
        r is Ok <==> metadata_map(*env).contains_key(token_id),
        r is Err ==> r == Err::<Vec<u8>, Error>(Error::TokenNotFound),
        r matches Ok(u) ==> u@ == metadata_map(*env)[token_id],
{
    match env.persistent.metadata.get(&token_id) {
        Some(u) => Ok(copy_bytes(u)),
        None => Err(Error::TokenNotFound),
    }
}

/// Replace the metadata URI of a token that has one.
///
/// # Errors
/// [`Error::TokenNotFound`] when none is stored; nothing changes.
pub fn update_metadata(env: &mut Env, token_id: TokenId, uri: &Vec<u8>) -> (r: Result<(), Error>)
    ensures
        r is Ok <==> metadata_map(*old(env)).contains_key(token_id),
        r is Err ==> r == Err::<(), Error>(Error::TokenNotFound) && *final(env) == *old(env),
        r is Ok ==> metadata_map(*final(env)) == metadata_map(*old(env)).insert(token_id, uri@),
        only_metadata_changed(*old(env), *final(env)),
{
    if !metadata_exists(env, token_id) {
        return Err(Error::TokenNotFound);
    }
    save_metadata(env, token_id, uri);
    Ok(())
}

/// Whether `token_id` has a metadata URI.
pub fn metadata_exists(env: &Env, token_id: TokenId) -> (r: bool)
    ensures
        r == metadata_map(*env).contains_key(token_id),
{
    env.persistent.metadata.contains_key(&token_id)
}

/// Remove the metadata URI of `token_id`, if any.
pub fn remove_metadata(env: &mut Env, token_id: TokenId)
    ensures
        metadata_map(*final(env)) == metadata_map(*old(env)).remove(token_id),
        only_metadata_changed(*old(env), *final(env)),
{
    env.persistent.metadata.remove(&token_id);
    assert(metadata_map(*env) =~= metadata_map(*old(env)).remove(token_id));
}

/// Reading a token's metadata URI gives back the last URI saved for it, and
/// saving for one token leaves every other token's URI as it was.
pub proof fn lemma_metadata_read_after_write(e0: Env, e1: Env, token_id: TokenId, uri: Seq<u8>, other: TokenId)
    requires
        metadata_map(e1) == metadata_map(e0).insert(token_id, uri),
        other != token_id,
    ensures
        metadata_map(e1).contains_key(token_id),
        metadata_map(e1)[token_id] == uri,
        metadata_map(e1).contains_key(other) == metadata_map(e0).contains_key(other),
        metadata_map(e1).contains_key(other) ==> metadata_map(e1)[other] == metadata_map(e0)[other],
{
}

/// After a removal the token has no metadata URI.
pub proof fn lemma_metadata_gone_after_remove(e0: Env, e1: Env, token_id: TokenId)
    requires
        metadata_map(e1) == metadata_map(e0).remove(token_id),
    ensures
        !metadata_map(e1).contains_key(token_id),
{
}

} // verus!
