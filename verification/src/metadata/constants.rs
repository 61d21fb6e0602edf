//! Metadata limits and defaults.

use vstd::prelude::*;

use crate::env::Env;
use vstd::string::StringSliceAdditionalSpecFns;

verus! {

/// Maximum length of a metadata URI, in bytes.
pub const MAX_URI_LENGTH: u32 = 512;

/// Maximum length of a metadata URI, in bytes (same limit as [`MAX_URI_LENGTH`]).
pub const MAX_URI_BYTES: u32 = 512;

/// Maximum length of a description, in bytes.
pub const MAX_DESCRIPTION_LENGTH: u32 = 1000;

/// Maximum number of attributes per token.
pub const MAX_ATTRIBUTES_COUNT: u32 = 50;

/// Maximum length of an attribute's trait type, in bytes.
pub const MAX_TRAIT_TYPE_LENGTH: u32 = 64;

/// Maximum length of an attribute's value, in bytes.
pub const MAX_TRAIT_VALUE_LENGTH: u32 = 128;

/// Maximum length of an attribute's display type, in bytes.
pub const MAX_DISPLAY_TYPE_LENGTH: u32 = 64;

/// Maximum length of a title, in bytes.
pub const MAX_TITLE_LENGTH: u32 = 200;

/// Maximum length of an image MIME type, in bytes.
pub const MAX_MIME_TYPE_LENGTH: u32 = 64;

/// Default image URL used when no image is provided.
pub const DEFAULT_IMAGE: &'static str = "https://ipfs.io/ipfs/QmDefaultImage";

/// Default image MIME type.
pub const DEFAULT_IMAGE_MIME_TYPE: &'static str = "image/png";

/// Default image width in pixels.
pub const DEFAULT_IMAGE_WIDTH: u32 = 640;

/// Default image height in pixels.
pub const DEFAULT_IMAGE_HEIGHT: u32 = 480;

/// Metadata version of new tokens.
pub const DEFAULT_METADATA_VERSION: u32 = 1;

/// Current metadata schema version.
pub const CURRENT_METADATA_VERSION: u32 = 1;

/// Default maximum serialized metadata size in bytes (100 KB).
pub const DEFAULT_MAX_METADATA_SIZE: u32 = 102400;

/// URL schemes accepted for metadata URIs and media fields.
pub const SUPPORTED_PROTOCOLS: [&'static str; 3] = ["https://", "ipfs://", "ar://"];

/// The default image URL, as bytes.
pub fn default_image(env: &Env) -> (r: Vec<u8>)
    ensures
        r@ == DEFAULT_IMAGE.spec_bytes(),
{
    vstd::slice::slice_to_vec(DEFAULT_IMAGE.as_bytes())
}

/// The default image MIME type, as bytes.
pub fn default_image_mime_type(env: &Env) -> (r: Vec<u8>)
    ensures
        r@ == DEFAULT_IMAGE_MIME_TYPE.spec_bytes(),
{
    vstd::slice::slice_to_vec(DEFAULT_IMAGE_MIME_TYPE.as_bytes())
}

} // verus!
