//! Validation of metadata fields: URLs and their schemes, the metadata URI,
//! optional media URLs, descriptions, images and attributes.

use vstd::prelude::*;

use crate::env::Env;

use crate::bytes::{ar_scheme, ar_scheme_bytes, has_prefix, https_scheme, https_scheme_bytes, ipfs_scheme, ipfs_scheme_bytes, starts_with};
use crate::metadata::constants::{
    MAX_ATTRIBUTES_COUNT, MAX_DESCRIPTION_LENGTH, MAX_DISPLAY_TYPE_LENGTH, MAX_MIME_TYPE_LENGTH, MAX_TRAIT_TYPE_LENGTH,
    MAX_TRAIT_VALUE_LENGTH, MAX_URI_LENGTH,
};
use crate::bytes::opt_bytes;
use crate::metadata::types::{attrs_view, Attribute, AttributeView, MetadataImage};
use crate::types::Error;

verus! {

/// Whether `url` begins with `https://`, `ipfs://` or `ar://`.
pub open spec fn has_supported_protocol(url: Seq<u8>) -> bool {
    starts_with(url, https_scheme()) || starts_with(url, ipfs_scheme()) || starts_with(url, ar_scheme())
}

/// Outcome of [`validate_url`].
pub open spec fn url_check(url: Seq<u8>) -> Result<(), Error> {
    if url.len() == 0 {
        Err(Error::MalformedUrl)
    } else if !has_supported_protocol(url) {
        Err(Error::UnsupportedProtocol)
    } else {
        Ok(())
    }
}

/// Check that a URL is non-empty and uses a supported protocol.
///
/// # Errors
/// * [`Error::MalformedUrl`] — the URL is empty.
/// * [`Error::UnsupportedProtocol`] — it does not begin with `https://`,
///   `ipfs://` or `ar://`.
pub fn validate_url(env: &Env, url: &Vec<u8>) -> (r: Result<(), Error>)
    ensures
        r == url_check(url@),
{
    if url.len() == 0 {
        return Err(Error::MalformedUrl);
    }
    if has_prefix(url, &https_scheme_bytes()) || has_prefix(url, &ipfs_scheme_bytes()) || has_prefix(url, &ar_scheme_bytes()) {
        Ok(())
    } else {
        Err(Error::UnsupportedProtocol)
    }
}

/// Outcome of [`validate_metadata_uri`].
pub open spec fn metadata_uri_check(uri: Seq<u8>) -> Result<(), Error> {
    if uri.len() == 0 || uri.len() > MAX_URI_LENGTH {
        Err(Error::InvalidURI)
    } else {
        url_check(uri)
    }
}

/// Check a metadata URI: non-empty, at most [`MAX_URI_LENGTH`] bytes, and
/// with a supported protocol.
///
/// # Errors
/// [`Error::InvalidURI`] when empty or too long, else the errors of
/// [`validate_url`].
pub fn validate_metadata_uri(env: &Env, uri: &Vec<u8>) -> (r: Result<(), Error>)
    ensures
        r == metadata_uri_check(uri@),
{
    if uri.len() == 0 {
        return Err(Error::InvalidURI);
    }
    if uri.len() > MAX_URI_LENGTH as usize {
        return Err(Error::InvalidURI);
    }
    validate_url(env, uri)
}

/// Outcome of checking an optional media URL: absent and empty URLs pass,
/// others must be at most [`MAX_URI_LENGTH`] bytes with a supported protocol.
pub open spec fn optional_url_check(url: Option<Seq<u8>>) -> Result<(), Error> {
    match url {
        Some(u) => if u.len() == 0 {
            Ok(())
        } else if u.len() > MAX_URI_LENGTH {
            Err(Error::InvalidURI)
        } else {
            url_check(u)
        },
        None => Ok(()),
    }
}

/// Check an optional media URL.
fn validate_optional_url(env: &Env, url: &Option<Vec<u8>>) -> (r: Result<(), Error>)
    ensures
        r == optional_url_check(opt_bytes(*url)),
{
    if let Some(u) = url {
        if u.len() > 0 {
            if u.len() > MAX_URI_LENGTH as usize {
                return Err(Error::InvalidURI);
            }
            validate_url(env, u)?;
        }
    }
    Ok(())
}

/// Check an optional image URL (see [`optional_url_check`]).
pub fn validate_image_url(env: &Env, image: &Option<Vec<u8>>) -> (r: Result<(), Error>)
    ensures
        r == optional_url_check(opt_bytes(*image)),
{
    validate_optional_url(env, image)
}

/// Check an optional animation URL (see [`optional_url_check`]).
pub fn validate_animation_url(env: &Env, animation_url: &Option<Vec<u8>>) -> (r: Result<(), Error>)
    ensures
        r == optional_url_check(opt_bytes(*animation_url)),
{
    validate_optional_url(env, animation_url)
}

/// Check an optional external URL (see [`optional_url_check`]).
pub fn validate_external_url(env: &Env, external_url: &Option<Vec<u8>>) -> (r: Result<(), Error>)
    ensures
        r == optional_url_check(opt_bytes(*external_url)),
{
    validate_optional_url(env, external_url)
}

/// Outcome of [`validate_description`].
pub open spec fn description_check(description: Option<Seq<u8>>) -> Result<(), Error> {
    match description {
        Some(d) => if d.len() > MAX_DESCRIPTION_LENGTH { Err(Error::InvalidURI) } else { Ok(()) },
        None => Ok(()),
    }
}

/// Check an optional description: at most [`MAX_DESCRIPTION_LENGTH`] bytes.
///
/// # Errors
/// [`Error::InvalidURI`] when too long.
pub fn validate_description(description: &Option<Vec<u8>>) -> (r: Result<(), Error>)
    ensures
        r == description_check(opt_bytes(*description)),
{
    if let Some(d) = description {
        if d.len() > MAX_DESCRIPTION_LENGTH as usize {
            return Err(Error::InvalidURI);
        }
    }
    Ok(())
}

/// Outcome of [`validate_metadata_image`].
pub open spec fn image_check(image: MetadataImage) -> Result<(), Error> {
    if image.image_url@.len() == 0 || image.image_url@.len() > MAX_URI_LENGTH {
        Err(Error::InvalidURI)
    } else if url_check(image.image_url@) is Err {
        url_check(image.image_url@)
    } else if image.mime_type@.len() == 0 || image.mime_type@.len() > MAX_MIME_TYPE_LENGTH {
        Err(Error::InvalidURI)
    } else {
        Ok(())
    }
}

/// Check an image record: a non-empty URL of at most [`MAX_URI_LENGTH`]
/// bytes with a supported protocol, and a non-empty MIME type of at most
/// [`MAX_MIME_TYPE_LENGTH`] bytes. Dimensions are not constrained.
pub fn validate_metadata_image(env: &Env, image: &MetadataImage) -> (r: Result<(), Error>)
    ensures
        r == image_check(*image),
{
    if image.image_url.len() == 0 {
        return Err(Error::InvalidURI);
    }
    if image.image_url.len() > MAX_URI_LENGTH as usize {
        return Err(Error::InvalidURI);
    }
    validate_url(env, &image.image_url)?;
    if image.mime_type.len() == 0 {
        return Err(Error::InvalidURI);
    }
    if image.mime_type.len() > MAX_MIME_TYPE_LENGTH as usize {
        return Err(Error::InvalidURI);
    }
    Ok(())
}

/// Whether one attribute is well-formed: trait type of 1 to 64 bytes, value
/// of 1 to 128 bytes, and a display type, when present, of 1 to 64 bytes.
pub open spec fn attribute_ok(a: AttributeView) -> bool {
    &&& 0 < a.trait_type.len() <= MAX_TRAIT_TYPE_LENGTH
    &&& 0 < a.value.len() <= MAX_TRAIT_VALUE_LENGTH
    &&& match a.display_type {
        Some(d) => 0 < d.len() <= MAX_DISPLAY_TYPE_LENGTH,
        None => true,
    }
}

/// Whether a list of attributes is acceptable: at most 50, each well-formed.
pub open spec fn attributes_ok(attrs: Seq<AttributeView>) -> bool {
    &&& attrs.len() <= MAX_ATTRIBUTES_COUNT
    &&& forall|i: int| 0 <= i < attrs.len() ==> #[trigger] attribute_ok(attrs[i])
}

/// Check one attribute.
fn attribute_valid(a: &Attribute) -> (r: bool)
    ensures
        r == attribute_ok(a@),
{
    if a.trait_type.len() == 0 || a.trait_type.len() > MAX_TRAIT_TYPE_LENGTH as usize {
        return false;
    }
    if a.value.len() == 0 || a.value.len() > MAX_TRAIT_VALUE_LENGTH as usize {
        return false;
    }
    match &a.display_type {
        Some(d) => d.len() > 0 && d.len() <= MAX_DISPLAY_TYPE_LENGTH as usize,
        None => true,
    }
}

/// Check a list of attributes: at most [`MAX_ATTRIBUTES_COUNT`], each
/// well-formed (see [`attribute_ok`]).
///
/// # Errors
/// [`Error::InvalidURI`] otherwise.
pub fn validate_attributes(attributes: &Vec<Attribute>) -> (r: Result<(), Error>)
    ensures
        r == (if attributes_ok(attrs_view(attributes@)) { Ok(()) } else { Err(Error::InvalidURI) }),
{
    if attributes.len() > MAX_ATTRIBUTES_COUNT as usize {
        return Err(Error::InvalidURI);
    }
    let n = attributes.len();
    let mut i: usize = 0;
    while i < n
        invariant
            n == attributes@.len(),
            n <= MAX_ATTRIBUTES_COUNT,
            i <= n,
            forall|k: int| 0 <= k < i ==> #[trigger] attribute_ok(attrs_view(attributes@)[k]),
        decreases n - i,
    {
        assert(attrs_view(attributes@)[i as int] == attributes@[i as int]@);
        if !attribute_valid(&attributes[i]) {
            return Err(Error::InvalidURI);
        }
        i = i + 1;
    }
    Ok(())
}

} // verus!
