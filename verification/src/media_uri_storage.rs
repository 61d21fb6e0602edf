//! Thumbnail and preview URIs of tokens.

use vstd::prelude::*;

use crate::bytes::copy_bytes;
use crate::env::{Env, PersistentStorage};
use crate::ownership::only_persistent_changed;
use crate::types::{Error, TokenId};

verus! {

broadcast use vstd::std_specs::hash::group_hash_axioms;

/// A map of byte strings, as bytes.
pub open spec fn bytes_map(m: Map<TokenId, Vec<u8>>) -> Map<TokenId, Seq<u8>> {
    Map::new(|t: TokenId| m.contains_key(t), |t: TokenId| m[t]@)
}

/// Store the thumbnail URI of `token_id`.
pub fn set_thumbnail(env: &mut Env, token_id: TokenId, uri: &Vec<u8>)
    ensures
        bytes_map(final(env).persistent.thumbnails@) == bytes_map(old(env).persistent.thumbnails@).insert(token_id, uri@),
        final(env).persistent == (PersistentStorage { thumbnails: final(env).persistent.thumbnails, ..old(env).persistent }),
        only_persistent_changed(*old(env), *final(env)),
{
    env.persistent.thumbnails.insert(token_id, copy_bytes(uri));
    assert(bytes_map(env.persistent.thumbnails@) =~= bytes_map(old(env).persistent.thumbnails@).insert(token_id, uri@));
}

/// The thumbnail URI of `token_id`.
///
/// # Errors
/// [`Error::TokenNotFound`] when none is stored.
pub fn get_thumbnail(env: &Env, token_id: TokenId) -> (r: Result<Vec<u8>, Error>)
    ensures
        r is Ok <==> bytes_map(env.persistent.thumbnails@).contains_key(token_id),
        r is Err ==> r == Err::<Vec<u8>, Error>(Error::TokenNotFound),
        r matches Ok(u) ==> u@ == bytes_map(env.persistent.thumbnails@)[token_id],
{
    match env.persistent.thumbnails.get(&token_id) {
        Some(u) => Ok(copy_bytes(u)),
        None => Err(Error::TokenNotFound),
    }
}

/// Store the preview URI of `token_id`.
pub fn set_preview_uri(env: &mut Env, token_id: TokenId, uri: &Vec<u8>)
    ensures
        bytes_map(final(env).persistent.preview_uris@) == bytes_map(old(env).persistent.preview_uris@).insert(token_id, uri@),
        final(env).persistent == (PersistentStorage { preview_uris: final(env).persistent.preview_uris, ..old(env).persistent }),
        only_persistent_changed(*old(env), *final(env)),
{
    env.persistent.preview_uris.insert(token_id, copy_bytes(uri));
    assert(bytes_map(env.persistent.preview_uris@) =~= bytes_map(old(env).persistent.preview_uris@).insert(token_id, uri@));
}

/// The preview URI of `token_id`.
///
/// # Errors
/// [`Error::TokenNotFound`] when none is stored.
pub fn get_preview_uri(env: &Env, token_id: TokenId) -> (r: Result<Vec<u8>, Error>)
    ensures
        r is Ok <==> bytes_map(env.persistent.preview_uris@).contains_key(token_id),
        r is Err ==> r == Err::<Vec<u8>, Error>(Error::TokenNotFound),
        r matches Ok(u) ==> u@ == bytes_map(env.persistent.preview_uris@)[token_id],
{
    match env.persistent.preview_uris.get(&token_id) {
        Some(u) => Ok(copy_bytes(u)),
        None => Err(Error::TokenNotFound),
    }
}

} // verus!
