//! Metadata update rules and lookups.

use vstd::prelude::*;

use crate::bytes::copy_bytes;
use crate::types::{Address, Error};

verus! {

/// When a token's metadata may be updated.
#[derive(Clone, Copy, Debug, PartialEq, Eq, Structural)]
pub enum UpdateRule {
    /// Once after minting.
    OneTime,
    /// Only by the admin.
    AdminOnly,
    /// Never.
    Immutable,
}

/// A change of a token's metadata URI.
pub struct MetadataChangeEvent {
    pub token_id: u32,
    pub previous_uri: Vec<u8>,
    pub new_uri: Vec<u8>,
    pub updater: Address,
}

/// A cached metadata URI.
pub struct CacheEntry {
    pub token_id: u32,
    pub uri: Vec<u8>,
}

/// Whether `rule` lets an update through, the updater being the admin or
/// not.
pub open spec fn update_allowed(rule: UpdateRule, is_admin: bool) -> bool {
    match rule {
        UpdateRule::OneTime => true,
        UpdateRule::AdminOnly => is_admin,
        UpdateRule::Immutable => false,
    }
}

/// Check an update against `rule`.
///
/// # Errors
/// [`Error::MetadataUpdateNotAllowed`] when the rule forbids it.
pub fn validate_update(rule: UpdateRule, is_admin: bool) -> (r: Result<(), Error>)
    ensures
        r == (if update_allowed(rule, is_admin) { Ok(()) } else { Err(Error::MetadataUpdateNotAllowed) }),
{
    match rule {
        UpdateRule::OneTime => Ok(()),
        UpdateRule::AdminOnly => {
            if !is_admin {
                return Err(Error::MetadataUpdateNotAllowed);
            }
            Ok(())
        },
        UpdateRule::Immutable => Err(Error::MetadataUpdateNotAllowed),
    }
}

/// The given URI of a token, when it is not empty.
///
/// # Errors
/// [`Error::MalformedUrl`] when it is empty.
pub fn get_metadata_by_token_id(token_id: u32, uri: &Vec<u8>) -> (r: Result<Vec<u8>, Error>)
    ensures
        r is Ok <==> uri@.len() > 0,
        r is Err ==> r == Err::<Vec<u8>, Error>(Error::MalformedUrl),
        r matches Ok(u) ==> u@ == uri@,
{
    if uri.len() == 0 {
        return Err(Error::MalformedUrl);
    }
    Ok(copy_bytes(uri))
}

/// Lookup by clip ID: no clip index is consulted, so nothing is found.
///
/// # Errors
/// Always [`Error::TokenNotFound`].
pub fn get_metadata_by_clip_id(clip_id: u32) -> (r: Result<Vec<u8>, Error>)
    ensures
        r == Err::<Vec<u8>, Error>(Error::TokenNotFound),
{
    Err(Error::TokenNotFound)
}

/// Lookup by creator: no creator index is consulted, so nothing is found.
///
/// # Errors
/// Always [`Error::TokenNotFound`].
pub fn get_metadata_by_creator(creator: Address) -> (r: Result<Vec<u8>, Error>)
    ensures
        r == Err::<Vec<u8>, Error>(Error::TokenNotFound),
{
    Err(Error::TokenNotFound)
}

} // verus!
