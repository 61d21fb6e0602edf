//! Linking registered metadata records to minted tokens.

use vstd::prelude::*;

use crate::bytes::copy_bytes;
use crate::env::{Env, PersistentStorage};
use crate::metadata::storage::metadata_map;
use crate::ownership::only_persistent_changed;
use crate::types::{Error, TokenId};
use crate::uri_index::{add_record, index_lookup, index_uri, is_record, record_exists};

verus! {

broadcast use vstd::std_specs::hash::group_hash_axioms;

/// Register `uri` as a known metadata record.
///
/// # Errors
/// [`Error::InvalidURI`] when it is empty; nothing changes.
pub fn register_metadata_record(env: &mut Env, uri: &Vec<u8>) -> (r: Result<(), Error>)
    ensures
        r is Ok <==> uri@.len() > 0,
        r is Err ==> r == Err::<(), Error>(Error::InvalidURI) && *final(env) == *old(env),
        forall|u: Seq<u8>| #[trigger] is_record(final(env).persistent.metadata_records@, u)
            <==> (is_record(old(env).persistent.metadata_records@, u) || (r is Ok && u == uri@)),
        final(env).persistent == (PersistentStorage {
            metadata_records: final(env).persistent.metadata_records,
            ..old(env).persistent
        }),
        only_persistent_changed(*old(env), *final(env)),
{
    if uri.len() == 0 {
        return Err(Error::InvalidURI);
    }
    add_record(env, uri);
    Ok(())
}

/// Whether `uri` is a registered metadata record.
pub fn metadata_record_exists(env: &Env, uri: &Vec<u8>) -> (r: bool)
    ensures
        r == is_record(env.persistent.metadata_records@, uri@),
{
    record_exists(env, uri)
}

/// Whether `token_id` has a metadata URI.
pub fn token_has_metadata_link(env: &Env, token_id: TokenId) -> (r: bool)
    ensures
        r == metadata_map(*env).contains_key(token_id),
{
    env.persistent.metadata.contains_key(&token_id)
}

/// Outcome of [`link_metadata_to_nft`].
pub open spec fn link_check(env: Env, token_id: TokenId, uri: Seq<u8>) -> Result<(), Error> {
    if uri.len() == 0 {
        Err(Error::InvalidURI)
    } else if !is_record(env.persistent.metadata_records@, uri) {
        Err(Error::MetadataNotFound)
    } else if metadata_map(env).contains_key(token_id) {
        Err(Error::DuplicateRecord)
    } else {
        Ok(())
    }
}

/// Link a registered metadata record to a token that has none yet, and
/// index the URI to the token.
///
/// # Errors
/// [`Error::InvalidURI`] (empty URI), [`Error::MetadataNotFound`] (not
/// registered), [`Error::DuplicateRecord`] (token already linked). On error
/// nothing changes.
pub fn link_metadata_to_nft(env: &mut Env, token_id: TokenId, uri: &Vec<u8>) -> (r: Result<(), Error>)
    ensures
        r == link_check(*old(env), token_id, uri@),
        r is Err ==> *final(env) == *old(env),
        r is Ok ==> metadata_map(*final(env)) == metadata_map(*old(env)).insert(token_id, uri@),
        r is Ok ==> index_lookup(final(env).persistent.metadata_index@, uri@) == Some(token_id),
        r is Ok ==> forall|u: Seq<u8>| u != uri@ ==> #[trigger] index_lookup(final(env).persistent.metadata_index@, u)
            == index_lookup(old(env).persistent.metadata_index@, u),
        final(env).persistent == (PersistentStorage {
            metadata: final(env).persistent.metadata,
            metadata_index: final(env).persistent.metadata_index,
            ..old(env).persistent
        }),
        only_persistent_changed(*old(env), *final(env)),
{
    if uri.len() == 0 {
        return Err(Error::InvalidURI);
    }
    if !metadata_record_exists(env, uri) {
        return Err(Error::MetadataNotFound);
    }
    if token_has_metadata_link(env, token_id) {
        return Err(Error::DuplicateRecord);
    }
    env.persistent.metadata.insert(token_id, copy_bytes(uri));
    assert(metadata_map(*env) =~= metadata_map(*old(env)).insert(token_id, uri@));
    let ghost mid = *env;
    index_uri(env, uri, token_id);
    assert(metadata_map(*env) == metadata_map(mid));
    Ok(())
}

/// The metadata URI linked to `token_id`.
///
/// # Errors
/// [`Error::TokenNotFound`] when none is.
pub fn get_linked_metadata(env: &Env, token_id: TokenId) -> (r: Result<Vec<u8>, Error>)
    ensures
        r is Ok <==> metadata_map(*env).contains_key(token_id),
        r is Err ==> r == Err::<Vec<u8>, Error>(Error::TokenNotFound),
        r matches Ok(u) ==> u@ == metadata_map(*env)[token_id],
{
    crate::metadata::storage::get_metadata(env, token_id)
}

} // verus!
