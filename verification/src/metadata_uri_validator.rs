//! Strict metadata URI validation: length, scheme, a non-empty body, and no
//! whitespace or control bytes.

use vstd::prelude::*;

use crate::bytes::{ar_scheme, ar_scheme_bytes, has_prefix, https_scheme, https_scheme_bytes, ipfs_scheme, ipfs_scheme_bytes, starts_with};
use crate::types::Error;

verus! {

/// Longest metadata URI accepted, in bytes.
pub const MAX_METADATA_URI_LEN: u32 = 512;

/// Length of the first of `ipfs://`, `https://`, `ar://` that begins `uri`.
pub open spec fn scheme_len(uri: Seq<u8>) -> Option<nat> {
    if starts_with(uri, ipfs_scheme()) {
        Some(ipfs_scheme().len())
    } else if starts_with(uri, https_scheme()) {
        Some(https_scheme().len())
    } else if starts_with(uri, ar_scheme()) {
        Some(ar_scheme().len())
    } else {
        None
    }
}

/// Whether a byte may appear in a URI: above space, and not DEL.
pub open spec fn uri_byte_ok(b: u8) -> bool {
    b > 32 && b != 127
}

/// Whether `uri` is an acceptable metadata URI.
pub open spec fn metadata_uri_ok(uri: Seq<u8>) -> bool {
    &&& 0 < uri.len() <= MAX_METADATA_URI_LEN
    &&& scheme_len(uri) matches Some(p) && uri.len() > p
    &&& forall|i: int| 0 <= i < uri.len() ==> #[trigger] uri_byte_ok(uri[i])
}

/// The length of the scheme that begins `uri`, if supported.
fn find_scheme(uri: &Vec<u8>) -> (r: Option<usize>)
    ensures
        r matches Some(n) ==> scheme_len(uri@) == Some(n as nat),
        r is None ==> scheme_len(uri@) is None,
{
    let ipfs = ipfs_scheme_bytes();
    if has_prefix(uri, &ipfs) {
        return Some(ipfs.len());
    }
    let https = https_scheme_bytes();
    if has_prefix(uri, &https) {
        return Some(https.len());
    }
    let ar = ar_scheme_bytes();
    if has_prefix(uri, &ar) {
        return Some(ar.len());
    }
    None
}

/// Accept a metadata URI of 1 to [`MAX_METADATA_URI_LEN`] bytes that begins
/// with `ipfs://`, `https://` or `ar://`, has something after the scheme,
/// and holds no byte at or below space and no DEL.
///
/// # Errors
/// [`Error::InvalidURI`] otherwise.
pub fn validate_metadata_uri(uri: &Vec<u8>) -> (r: Result<(), Error>)
    ensures
        r == (if metadata_uri_ok(uri@) { Ok(()) } else { Err(Error::InvalidURI) }),
{
    let len = uri.len();
    if len == 0 || len > MAX_METADATA_URI_LEN as usize {
        return Err(Error::InvalidURI);
    }
    let prefix_len = match find_scheme(uri) {
        Some(p) => p,
        None => return Err(Error::InvalidURI),
    };
    if len == prefix_len {
        return Err(Error::InvalidURI);
    }
    let mut i: usize = 0;
    while i < len
        invariant
            len == uri@.len(),
            i <= len,
            forall|k: int| 0 <= k < i ==> #[trigger] uri_byte_ok(uri@[k]),
        decreases len - i,
    {
        let b = uri[i];
        if b <= 32u8 || b == 127u8 {
            assert(!uri_byte_ok(uri@[i as int]));
            return Err(Error::InvalidURI);
        }
        i = i + 1;
    }
    Ok(())
}

/// Accept an empty URI, or one that [`validate_metadata_uri`] accepts.
pub fn validate_optional_metadata_uri(uri: &Vec<u8>) -> (r: Result<(), Error>)
    ensures
        r == (if uri@.len() == 0 || metadata_uri_ok(uri@) { Ok(()) } else { Err(Error::InvalidURI) }),
{
    if uri.len() == 0 {
        return Ok(());
    }
    validate_metadata_uri(uri)
}

} // verus!
