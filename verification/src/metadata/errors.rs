//! Metadata-specific errors, with numeric codes starting at 100 so they do
//! not collide with contract-level errors.

use vstd::prelude::*;

verus! {

/// Errors of metadata validation, storage and manipulation.
#[derive(Copy, Clone, Debug, Eq, PartialEq, PartialOrd, Ord, Structural)]
pub enum MetadataError {
    /// Metadata structure or content is invalid (code 100).
    InvalidMetadata,
    /// URI is empty, malformed or uses an unsupported protocol (code 101).
    InvalidURI,
    /// Serialized metadata exceeds the size limit (code 102).
    MetadataTooLarge,
    /// A required image is missing (code 103).
    MissingImage,
    /// The metadata version is not supported (code 104).
    UnsupportedVersion,
}

/// Numeric code of a metadata error.
pub open spec fn metadata_error_code(e: MetadataError) -> u32 {
    match e {
        MetadataError::InvalidMetadata => 100,
        MetadataError::InvalidURI => 101,
        MetadataError::MetadataTooLarge => 102,
        MetadataError::MissingImage => 103,
        MetadataError::UnsupportedVersion => 104,
    }
}

impl MetadataError {
    /// Numeric code of this error.
    pub fn code(&self) -> (r: u32)
        ensures
            r == metadata_error_code(*self),
    {
        match self {
            MetadataError::InvalidMetadata => 100,
            MetadataError::InvalidURI => 101,
            MetadataError::MetadataTooLarge => 102,
            MetadataError::MissingImage => 103,
            MetadataError::UnsupportedVersion => 104,
        }
    }
}

/// Distinct metadata errors have distinct codes, and every code is at least 100.
pub proof fn lemma_metadata_error_codes_unique(a: MetadataError, b: MetadataError)
    ensures
        metadata_error_code(a) == metadata_error_code(b) <==> a == b,
        metadata_error_code(a) >= 100,
{
}

} // verus!
