//! Per-token records written at mint time: metadata URI, royalty percentage
//! and recipient, creator attribution, creator and owner portfolios, the
//! clip ↔ token mapping, media URIs, the token ID counter and the total
//! supply.

use vstd::prelude::*;

use crate::bytes::{copy_opt_bytes, opt_bytes};
use crate::env::{CreatorRecord, Env, InstanceStorage, PersistentStorage};
use crate::metadata::types::CreatorMetadata;
use crate::metadata_uri_builder::{uri_check, validate_uri};
use crate::ownership::{index_delete, index_insert, only_persistent_changed};
use crate::types::{Address, Error, TokenId, MAX_ROYALTY_BPS};

verus! {

broadcast use vstd::std_specs::hash::group_hash_axioms;

/// Store the metadata URI of `token_id`.
///
/// # Errors
/// [`Error::InvalidURI`] when `uri` is empty; nothing changes.
pub fn set_metadata(env: &mut Env, token_id: TokenId, uri: Vec<u8>) -> (r: Result<(), Error>)
    ensures
        r is Ok <==> uri@.len() > 0,
        r is Err ==> r == Err::<(), Error>(Error::InvalidURI) && *final(env) == *old(env),
        r is Ok ==> final(env).persistent.metadata@ == old(env).persistent.metadata@.insert(token_id, uri),
        final(env).persistent == (PersistentStorage { metadata: final(env).persistent.metadata, ..old(env).persistent }),
        only_persistent_changed(*old(env), *final(env)),
{
    if uri.len() == 0 {
        return Err(Error::InvalidURI);
    }
    env.persistent.metadata.insert(token_id, uri);
    Ok(())
}

/// Store the royalty percentage (in basis points) of `token_id`.
///
/// # Errors
/// [`Error::InvalidBasisPoints`] when `bps > 10 000`; nothing changes.
pub fn set_royalty_percentage(env: &mut Env, token_id: TokenId, bps: u32) -> (r: Result<(), Error>)
    ensures
        r is Ok <==> bps <= MAX_ROYALTY_BPS,
        r is Err ==> r == Err::<(), Error>(Error::InvalidBasisPoints) && *final(env) == *old(env),
        r is Ok ==> final(env).persistent.royalty_percentage@ == old(env).persistent.royalty_percentage@.insert(token_id, bps),
        final(env).persistent == (PersistentStorage {
            royalty_percentage: final(env).persistent.royalty_percentage,
            ..old(env).persistent
        }),
        only_persistent_changed(*old(env), *final(env)),
{
    if bps > MAX_ROYALTY_BPS {
        return Err(Error::InvalidBasisPoints);
    }
    env.persistent.royalty_percentage.insert(token_id, bps);
    Ok(())
}

/// Store the primary royalty recipient of `token_id`.
pub fn set_royalty_recipient(env: &mut Env, token_id: TokenId, recipient: Address)
    ensures
        final(env).persistent.royalty_recipient@ == old(env).persistent.royalty_recipient@.insert(token_id, recipient),
        final(env).persistent == (PersistentStorage {
            royalty_recipient: final(env).persistent.royalty_recipient,
            ..old(env).persistent
        }),
        only_persistent_changed(*old(env), *final(env)),
{
    env.persistent.royalty_recipient.insert(token_id, recipient);
}

/// Record the creator (and optional display name) of `token_id`.
pub fn set_creator_with_name(env: &mut Env, token_id: TokenId, creator: Address, display_name: Option<Vec<u8>>)
    ensures
        final(env).persistent.creators@ == old(env).persistent.creators@.insert(
            token_id,
            CreatorRecord { creator, display_name },
        ),
        final(env).persistent == (PersistentStorage { creators: final(env).persistent.creators, ..old(env).persistent }),
        only_persistent_changed(*old(env), *final(env)),
{
    env.persistent.creators.insert(token_id, CreatorRecord { creator, display_name });
}

/// The creator recorded for `token_id`.
///
/// # Errors
/// [`Error::TokenNotFound`] when none is recorded.
pub fn get_creator(env: &Env, token_id: TokenId) -> (r: Result<Address, Error>)
    ensures
        r is Ok <==> env.persistent.creators@.contains_key(token_id),
        r is Err ==> r == Err::<Address, Error>(Error::TokenNotFound),
        r matches Ok(c) ==> c == env.persistent.creators@[token_id].creator,
{
    match env.persistent.creators.get(&token_id) {
        Some(rec) => Ok(rec.creator),
        None => Err(Error::TokenNotFound),
    }
}

/// The creator's display name recorded for `token_id` (`None` when the
/// creator gave none).
///
/// # Errors
/// [`Error::TokenNotFound`] when no creator is recorded.
pub fn get_creator_display_name(env: &Env, token_id: TokenId) -> (r: Result<Option<Vec<u8>>, Error>)
    ensures
        r is Ok <==> env.persistent.creators@.contains_key(token_id),
        r is Err ==> r == Err::<Option<Vec<u8>>, Error>(Error::TokenNotFound),
        r matches Ok(n) ==> opt_bytes(n) == opt_bytes(env.persistent.creators@[token_id].display_name),
{
    match env.persistent.creators.get(&token_id) {
        Some(rec) => Ok(copy_opt_bytes(&rec.display_name)),
        None => Err(Error::TokenNotFound),
    }
}

/// The creator attribution of `token_id`: its creator and display name, not
/// verified (only the platform verifies creators).
///
/// # Errors
/// [`Error::TokenNotFound`] when no creator is recorded.
pub fn get_creator_metadata(env: &Env, token_id: TokenId) -> (r: Result<CreatorMetadata, Error>)
    ensures
        r is Ok <==> env.persistent.creators@.contains_key(token_id),
        r is Err ==> r == Err::<CreatorMetadata, Error>(Error::TokenNotFound),
        r matches Ok(m) ==> {
            &&& m.creator_address == env.persistent.creators@[token_id].creator
            &&& opt_bytes(m.display_name) == opt_bytes(env.persistent.creators@[token_id].display_name)
            &&& !m.verified
        },
{
    match env.persistent.creators.get(&token_id) {
        Some(rec) => Ok(CreatorMetadata {
            creator_address: rec.creator,
            display_name: copy_opt_bytes(&rec.display_name),
            verified: false,
        }),
        None => Err(Error::TokenNotFound),
    }
}

/// The tokens attributed to `creator`, oldest first.
pub fn get_creator_portfolio(env: &Env, creator: Address) -> (r: Vec<TokenId>)
    ensures
        r@ == crate::ownership::wallet_of(env.persistent.creator_tokens@, creator),
{
    match env.persistent.creator_tokens.get(&creator) {
        Some(v) => v.clone(),
        None => Vec::new(),
    }
}

/// Add `token_id` to `creator`'s portfolio.
pub fn add_token_to_creator(env: &mut Env, creator: Address, token_id: TokenId)
    ensures
        final(env).persistent.creator_tokens@ == old(env).persistent.creator_tokens@.insert(
            creator,
            final(env).persistent.creator_tokens@[creator],
        ),
        final(env).persistent.creator_tokens@[creator]@ == crate::ownership::with_token(
            crate::ownership::wallet_of(old(env).persistent.creator_tokens@, creator),
            token_id,
        ),
        final(env).persistent == (PersistentStorage {
            creator_tokens: final(env).persistent.creator_tokens,
            ..old(env).persistent
        }),
        only_persistent_changed(*old(env), *final(env)),
{
    index_insert(&mut env.persistent.creator_tokens, creator, token_id);
}

/// Add `token_id` to `owner`'s portfolio.
pub fn add_token_to_owner(env: &mut Env, owner: Address, token_id: TokenId)
    ensures
        final(env).persistent.owner_tokens@ == old(env).persistent.owner_tokens@.insert(
            owner,
            final(env).persistent.owner_tokens@[owner],
        ),
        final(env).persistent.owner_tokens@[owner]@ == crate::ownership::with_token(
            crate::ownership::wallet_of(old(env).persistent.owner_tokens@, owner),
            token_id,
        ),
        final(env).persistent == (PersistentStorage {
            owner_tokens: final(env).persistent.owner_tokens,
            ..old(env).persistent
        }),
        only_persistent_changed(*old(env), *final(env)),
{
    index_insert(&mut env.persistent.owner_tokens, owner, token_id);
}

/// Whether `clip_id` has been minted.
pub fn is_clip_mapped(env: &Env, clip_id: u32) -> (r: bool)
    ensures
        r == env.persistent.clip_to_token@.contains_key(clip_id),
{
    env.persistent.clip_to_token.contains_key(&clip_id)
}

/// The clip `token_id` was minted from.
///
/// # Errors
/// [`Error::TokenNotFound`] when none is recorded.
pub fn get_clip_id(env: &Env, token_id: TokenId) -> (r: Result<u32, Error>)
    ensures
        r is Ok <==> env.persistent.token_clip@.contains_key(token_id),
        r is Err ==> r == Err::<u32, Error>(Error::TokenNotFound),
        r matches Ok(c) ==> c == env.persistent.token_clip@[token_id],
{
    match env.persistent.token_clip.get(&token_id) {
        Some(c) => Ok(*c),
        None => Err(Error::TokenNotFound),
    }
}

/// Record the clip ↔ token mapping without checking for an earlier mint of
/// the clip.
pub fn save_clip_id_unchecked(env: &mut Env, token_id: TokenId, clip_id: u32)
    ensures
        final(env).persistent.clip_to_token@ == old(env).persistent.clip_to_token@.insert(clip_id, token_id),
        final(env).persistent.token_clip@ == old(env).persistent.token_clip@.insert(token_id, clip_id),
        final(env).persistent == (PersistentStorage {
            clip_to_token: final(env).persistent.clip_to_token,
            token_clip: final(env).persistent.token_clip,
            ..old(env).persistent
        }),
        only_persistent_changed(*old(env), *final(env)),
{
    env.persistent.clip_to_token.insert(clip_id, token_id);
    env.persistent.token_clip.insert(token_id, clip_id);
}

/// Record the clip ↔ token mapping.
///
/// # Errors
/// [`Error::ClipAlreadyMinted`] when the clip is already mapped; nothing
/// changes.
pub fn save_clip_id(env: &mut Env, token_id: TokenId, clip_id: u32) -> (r: Result<(), Error>)
    ensures
        r is Ok <==> !old(env).persistent.clip_to_token@.contains_key(clip_id),
        r is Err ==> r == Err::<(), Error>(Error::ClipAlreadyMinted) && *final(env) == *old(env),
        r is Ok ==> final(env).persistent.clip_to_token@ == old(env).persistent.clip_to_token@.insert(clip_id, token_id),
        r is Ok ==> final(env).persistent.token_clip@ == old(env).persistent.token_clip@.insert(token_id, clip_id),
        final(env).persistent == (PersistentStorage {
            clip_to_token: final(env).persistent.clip_to_token,
            token_clip: final(env).persistent.token_clip,
            ..old(env).persistent
        }),
        only_persistent_changed(*old(env), *final(env)),
{
    if is_clip_mapped(env, clip_id) {
        return Err(Error::ClipAlreadyMinted);
    }
    save_clip_id_unchecked(env, token_id, clip_id);
    Ok(())
}

/// Store the thumbnail URI of `token_id`.
///
/// # Errors
/// [`Error::InvalidURI`] when the URI is empty or has an unsupported scheme;
/// nothing changes.
pub fn set_thumbnail_uri(env: &mut Env, token_id: TokenId, uri: Vec<u8>) -> (r: Result<(), Error>)
    ensures
        r == uri_check(uri@),
        r is Err ==> *final(env) == *old(env),
        r is Ok ==> final(env).persistent.thumbnails@ == old(env).persistent.thumbnails@.insert(token_id, uri),
        final(env).persistent == (PersistentStorage {
            thumbnails: final(env).persistent.thumbnails,
            ..old(env).persistent
        }),
        only_persistent_changed(*old(env), *final(env)),
{
    validate_uri(&uri)?;
    env.persistent.thumbnails.insert(token_id, uri);
    Ok(())
}

/// Store the preview video URI of `token_id`.
///
/// # Errors
/// [`Error::InvalidURI`] when the URI is empty or has an unsupported scheme;
/// nothing changes.
pub fn set_preview_video_uri(env: &mut Env, token_id: TokenId, uri: Vec<u8>) -> (r: Result<(), Error>)
    ensures
        r == uri_check(uri@),
        r is Err ==> *final(env) == *old(env),
        r is Ok ==> final(env).persistent.preview_uris@ == old(env).persistent.preview_uris@.insert(token_id, uri),
        final(env).persistent == (PersistentStorage {
            preview_uris: final(env).persistent.preview_uris,
            ..old(env).persistent
        }),
        only_persistent_changed(*old(env), *final(env)),
{
    validate_uri(&uri)?;
    env.persistent.preview_uris.insert(token_id, uri);
    Ok(())
}

/// The total supply (0 when unset).
pub open spec fn total_supply_of(env: Env) -> u64 {
    match env.instance.total_supply {
        Some(s) => s,
        None => 0,
    }
}

/// The number of tokens minted and not burned.
pub fn get_total_supply(env: &Env) -> (r: u64)
    ensures
        r == total_supply_of(*env),
{
    match env.instance.total_supply {
        Some(s) => s,
        None => 0,
    }
}

/// Store the total supply.
pub fn set_total_supply(env: &mut Env, supply: u64)
    ensures
        final(env).instance == (InstanceStorage { total_supply: Some(supply), ..old(env).instance }),
        crate::fees::only_instance_changed(*old(env), *final(env)),
{
    env.instance.total_supply = Some(supply);
}

/// Add one to the total supply.
///
/// # Errors
/// [`Error::InvalidLimit`] when the supply is already `u64::MAX`; nothing
/// changes.
pub fn increment_total_supply(env: &mut Env) -> (r: Result<(), Error>)
    ensures
        r is Ok <==> total_supply_of(*old(env)) < u64::MAX,
        r is Err ==> r == Err::<(), Error>(Error::InvalidLimit) && *final(env) == *old(env),
        r is Ok ==> final(env).instance == (InstanceStorage {
            total_supply: Some((total_supply_of(*old(env)) + 1) as u64),
            ..old(env).instance
        }),
        crate::fees::only_instance_changed(*old(env), *final(env)),
{
    let s = get_total_supply(env);
    if s == u64::MAX {
        return Err(Error::InvalidLimit);
    }
    set_total_supply(env, s + 1);
    Ok(())
}

/// The last token ID handed out (0 before the first mint).
pub open spec fn last_token_id(env: Env) -> TokenId {
    match env.instance.next_token_id {
        Some(t) => t,
        None => 0,
    }
}

/// The token ID the next mint receives: one past the last, held at
/// `u64::MAX`.
pub open spec fn following_token_id(env: Env) -> TokenId {
    if last_token_id(env) == u64::MAX {
        u64::MAX
    } else {
        (last_token_id(env) + 1) as TokenId
    }
}

/// The token ID the next mint receives, without reserving it.
pub fn next_token_id(env: &Env) -> (r: TokenId)
    ensures
        r == following_token_id(*env),
{
    let current = match env.instance.next_token_id {
        Some(t) => t,
        None => 0,
    };
    current.saturating_add(1)
}

/// Reserve the next token ID and return it.
pub fn reserve_token_id(env: &mut Env) -> (r: TokenId)
    ensures
        r == following_token_id(*old(env)),
        final(env).instance == (InstanceStorage { next_token_id: Some(r), ..old(env).instance }),
        crate::fees::only_instance_changed(*old(env), *final(env)),
{
    let next = next_token_id(env);
    env.instance.next_token_id = Some(next);
    next
}

/// Remove `token_id` from `creator`'s portfolio.
pub fn remove_token_from_creator(env: &mut Env, creator: Address, token_id: TokenId)
    ensures
        !old(env).persistent.creator_tokens@.contains_key(creator) ==> final(env).persistent.creator_tokens@
            == old(env).persistent.creator_tokens@,
        old(env).persistent.creator_tokens@.contains_key(creator) ==> final(env).persistent.creator_tokens@
            == old(env).persistent.creator_tokens@.insert(creator, final(env).persistent.creator_tokens@[creator]),
        old(env).persistent.creator_tokens@.contains_key(creator) ==> final(env).persistent.creator_tokens@[creator]@
            == crate::ownership::without(old(env).persistent.creator_tokens@[creator]@, token_id),
        final(env).persistent == (PersistentStorage {
            creator_tokens: final(env).persistent.creator_tokens,
            ..old(env).persistent
        }),
        only_persistent_changed(*old(env), *final(env)),
{
    index_delete(&mut env.persistent.creator_tokens, creator, token_id);
}

/// Remove `token_id` from `owner`'s portfolio.
pub fn remove_token_from_owner(env: &mut Env, owner: Address, token_id: TokenId)
    ensures
        !old(env).persistent.owner_tokens@.contains_key(owner) ==> final(env).persistent.owner_tokens@
            == old(env).persistent.owner_tokens@,
        old(env).persistent.owner_tokens@.contains_key(owner) ==> final(env).persistent.owner_tokens@
            == old(env).persistent.owner_tokens@.insert(owner, final(env).persistent.owner_tokens@[owner]),
        old(env).persistent.owner_tokens@.contains_key(owner) ==> final(env).persistent.owner_tokens@[owner]@
            == crate::ownership::without(old(env).persistent.owner_tokens@[owner]@, token_id),
        final(env).persistent == (PersistentStorage {
            owner_tokens: final(env).persistent.owner_tokens,
            ..old(env).persistent
        }),
        only_persistent_changed(*old(env), *final(env)),
{
    index_delete(&mut env.persistent.owner_tokens, owner, token_id);
}

} // verus!
