//! A lightweight length check on metadata URIs.

use vstd::prelude::*;

verus! {

/// Longest metadata URI accepted by [`validate_metadata_uri`], in bytes.
pub const MAX_URI_LEN: u32 = 256;

/// Accept a URI of 1 to [`MAX_URI_LEN`] bytes.
pub fn validate_metadata_uri(uri: &Vec<u8>) -> (r: Result<(), ()>)
    ensures
        r is Ok <==> 0 < uri@.len() <= MAX_URI_LEN,
{
    let len = uri.len();
    if len == 0 || len > MAX_URI_LEN as usize {
        return Err(());
    }
    Ok(())
}

} // verus!
