//! Size limit on metadata URIs.

use vstd::prelude::*;

use crate::types::Error;

verus! {

/// Longest metadata URI accepted, in bytes.
pub const MAX_METADATA_URI_BYTES: u32 = 512;

/// Accept a URI of at most [`MAX_METADATA_URI_BYTES`] bytes.
///
/// # Errors
/// [`Error::MetadataSizeTooLarge`] when it is longer.
pub fn validate_metadata_size(uri: &Vec<u8>) -> (r: Result<(), Error>)
    ensures
        r == (if uri@.len() > MAX_METADATA_URI_BYTES { Err(Error::MetadataSizeTooLarge) } else { Ok(()) }),
{
    if uri.len() > MAX_METADATA_URI_BYTES as usize {
        return Err(Error::MetadataSizeTooLarge);
    }
    Ok(())
}

} // verus!
