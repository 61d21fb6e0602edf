//! Whole-document validation of token metadata: required fields, size
//! limits, then field formats.

use vstd::prelude::*;

use crate::env::Env;

use crate::bytes::opt_bytes;
use crate::metadata::constants::{MAX_ATTRIBUTES_COUNT, MAX_DESCRIPTION_LENGTH, MAX_URI_LENGTH};
use crate::metadata::types::{attrs_view, TokenMetadata};
use crate::metadata::validation::{
    attributes_ok, description_check, metadata_uri_check, optional_url_check, validate_animation_url, validate_attributes,
    validate_description, validate_external_url, validate_image_url, validate_metadata_uri,
};
use crate::metadata_size::{validate_metadata_size, MAX_METADATA_URI_BYTES};
use crate::types::Error;

verus! {

/// Check that the metadata URI is present.
///
/// # Errors
/// [`Error::InvalidURI`] when it is empty.
pub fn validate_required_fields(metadata: &TokenMetadata) -> (r: Result<(), Error>)
    ensures
        r == (if metadata.metadata_uri@.len() == 0 { Err(Error::InvalidURI) } else { Ok(()) }),
{
    if metadata.metadata_uri.len() == 0 {
        return Err(Error::InvalidURI);
    }
    Ok(())
}

/// Whether an optional URL is longer than [`MAX_URI_LENGTH`].
pub open spec fn url_too_long(url: Option<Seq<u8>>) -> bool {
    url matches Some(u) && u.len() > MAX_URI_LENGTH
}

/// Whether the metadata is within every size limit.
pub open spec fn sizes_ok(m: TokenMetadata) -> bool {
    &&& m.metadata_uri@.len() <= MAX_METADATA_URI_BYTES
    &&& !url_too_long(opt_bytes(m.image))
    &&& !url_too_long(opt_bytes(m.animation_url))
    &&& !url_too_long(opt_bytes(m.external_url))
    &&& !(opt_bytes(m.description) matches Some(d) && d.len() > MAX_DESCRIPTION_LENGTH)
    &&& m.attributes@.len() <= MAX_ATTRIBUTES_COUNT
}

/// Whether an optional URL is longer than [`MAX_URI_LENGTH`].
fn too_long(url: &Option<Vec<u8>>) -> (r: bool)
    ensures
        r == url_too_long(opt_bytes(*url)),
{
    match url {
        Some(u) => u.len() > MAX_URI_LENGTH as usize,
        None => false,
    }
}

/// Check the size limits: the metadata URI, each optional URL, the
/// description and the number of attributes.
///
/// # Errors
/// [`Error::MetadataSizeTooLarge`] when any limit is exceeded.
pub fn validate_size_constraints(metadata: &TokenMetadata) -> (r: Result<(), Error>)
    ensures
        r == (if sizes_ok(*metadata) { Ok(()) } else { Err(Error::MetadataSizeTooLarge) }),
{
    validate_metadata_size(&metadata.metadata_uri)?;
    if too_long(&metadata.image) || too_long(&metadata.animation_url) || too_long(&metadata.external_url) {
        return Err(Error::MetadataSizeTooLarge);
    }
    if let Some(d) = &metadata.description {
        if d.len() > MAX_DESCRIPTION_LENGTH as usize {
            return Err(Error::MetadataSizeTooLarge);
        }
    }
    if metadata.attributes.len() > MAX_ATTRIBUTES_COUNT as usize {
        return Err(Error::MetadataSizeTooLarge);
    }
    Ok(())
}

/// Outcome of [`validate_metadata`].
pub open spec fn metadata_check(m: TokenMetadata) -> Result<(), Error> {
    if m.metadata_uri@.len() == 0 {
        Err(Error::InvalidURI)
    } else if !sizes_ok(m) {
        Err(Error::MetadataSizeTooLarge)
    } else if metadata_uri_check(m.metadata_uri@) is Err {
        metadata_uri_check(m.metadata_uri@)
    } else if optional_url_check(opt_bytes(m.image)) is Err {
        optional_url_check(opt_bytes(m.image))
    } else if optional_url_check(opt_bytes(m.animation_url)) is Err {
        optional_url_check(opt_bytes(m.animation_url))
    } else if optional_url_check(opt_bytes(m.external_url)) is Err {
        optional_url_check(opt_bytes(m.external_url))
    } else if description_check(opt_bytes(m.description)) is Err {
        description_check(opt_bytes(m.description))
    } else if !attributes_ok(attrs_view(m.attributes@)) {
        Err(Error::InvalidURI)
    } else {
        Ok(())
    }
}

/// Validate token metadata: required fields, then size limits, then the
/// format of each field.
pub fn validate_metadata(env: &Env, metadata: &TokenMetadata) -> (r: Result<(), Error>)
    ensures
        r == metadata_check(*metadata),
{
    validate_required_fields(metadata)?;
    validate_size_constraints(metadata)?;
    validate_metadata_uri(env, &metadata.metadata_uri)?;
    validate_image_url(env, &metadata.image)?;
    validate_animation_url(env, &metadata.animation_url)?;
    validate_external_url(env, &metadata.external_url)?;
    validate_description(&metadata.description)?;
    validate_attributes(&metadata.attributes)
}

} // verus!
