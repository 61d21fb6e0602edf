//! Persisting a minted token's metadata URI, with the URI index kept in
//! step.

use vstd::prelude::*;

use crate::bytes::{bytes_eq, copy_bytes};
use crate::env::{Env, PersistentStorage};
use crate::media_uri_storage::bytes_map;
use crate::metadata::storage::metadata_map;
use crate::metadata_uri_validator::{metadata_uri_ok, validate_metadata_uri};
use crate::ownership::only_persistent_changed;
use crate::types::{Error, TokenId};
use crate::uri_index::{index_lookup, index_uri};

verus! {

broadcast use vstd::std_specs::hash::group_hash_axioms;

/// Validate `uri` and store it as the token URI and metadata URI of
/// `token_id`, indexing it to the token. The stored token URI is read back
/// and compared.
///
/// # Errors
/// [`Error::InvalidURI`] when [`validate_metadata_uri`] rejects the URI;
/// nothing changes.
pub fn persist_metadata_uri(env: &mut Env, token_id: TokenId, uri: &Vec<u8>) -> (r: Result<(), Error>)
    ensures
        r is Ok <==> metadata_uri_ok(uri@),
        r is Err ==> r == Err::<(), Error>(Error::InvalidURI) && *final(env) == *old(env),
        r is Ok ==> bytes_map(final(env).persistent.token_uris@) == bytes_map(old(env).persistent.token_uris@).insert(token_id, uri@),
        r is Ok ==> metadata_map(*final(env)) == metadata_map(*old(env)).insert(token_id, uri@),
        r is Ok ==> index_lookup(final(env).persistent.metadata_index@, uri@) == Some(token_id),
        r is Ok ==> forall|u: Seq<u8>| u != uri@ ==> #[trigger] index_lookup(final(env).persistent.metadata_index@, u)
            == index_lookup(old(env).persistent.metadata_index@, u),
        final(env).persistent == (PersistentStorage {
            token_uris: final(env).persistent.token_uris,
            metadata: final(env).persistent.metadata,
            metadata_index: final(env).persistent.metadata_index,
            ..old(env).persistent
        }),
        only_persistent_changed(*old(env), *final(env)),
{
    validate_metadata_uri(uri)?;
    env.persistent.token_uris.insert(token_id, copy_bytes(uri));
    env.persistent.metadata.insert(token_id, copy_bytes(uri));
    assert(bytes_map(env.persistent.token_uris@) =~= bytes_map(old(env).persistent.token_uris@).insert(token_id, uri@));
    assert(metadata_map(*env) =~= metadata_map(*old(env)).insert(token_id, uri@));
    let ghost mid = *env;
    index_uri(env, uri, token_id);
    assert(metadata_map(*env) == metadata_map(mid));
    let stored = match env.persistent.token_uris.get(&token_id) {
        Some(s) => s,
        None => return Err(Error::CorruptedStorage),
    };
    if !bytes_eq(stored, uri) {
        return Err(Error::CorruptedStorage);
    }
    Ok(())
}

/// The persisted token URI of `token_id`.
///
/// # Errors
/// [`Error::TokenNotFound`] when none is stored.
pub fn get_persisted_metadata_uri(env: &Env, token_id: TokenId) -> (r: Result<Vec<u8>, Error>)
    ensures
        r is Ok <==> bytes_map(env.persistent.token_uris@).contains_key(token_id),
        r is Err ==> r == Err::<Vec<u8>, Error>(Error::TokenNotFound),
        r matches Ok(u) ==> u@ == bytes_map(env.persistent.token_uris@)[token_id],
{
    match env.persistent.token_uris.get(&token_id) {
        Some(u) => Ok(copy_bytes(u)),
        None => Err(Error::TokenNotFound),
    }
}

/// Reading a token URI back after persisting it gives the URI persisted.
pub proof fn lemma_persisted_uri_read_back(e0: Env, e1: Env, token_id: TokenId, uri: Seq<u8>)
    requires
        bytes_map(e1.persistent.token_uris@) == bytes_map(e0.persistent.token_uris@).insert(token_id, uri),
    ensures
        bytes_map(e1.persistent.token_uris@).contains_key(token_id),
        bytes_map(e1.persistent.token_uris@)[token_id] == uri,
{
}

} // verus!
