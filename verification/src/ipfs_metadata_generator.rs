//! The JSON metadata document of a clip, as published to IPFS.

use vstd::prelude::*;

use crate::bytes::opt_bytes;
use crate::env::Env;
use crate::metadata::helpers::{cleared, non_vacant_attribute};
use crate::metadata::json::json_object;
use crate::metadata::metadata_builder::{clip_builder_check, clip_json_parts, ClipBuilderView, ClipMetadataBuilder};
use crate::metadata::types::{attrs_view, Attribute, AttributeView};
use crate::types::Error;

verus! {

/// What the builder holds once every field of the document is set.
pub open spec fn document_view(
    env: Env,
    clip_id: u32,
    metadata_uri: Seq<u8>,
    image: Option<Seq<u8>>,
    animation_url: Option<Seq<u8>>,
    description: Option<Seq<u8>>,
    external_url: Option<Seq<u8>>,
    attributes: Seq<AttributeView>,
) -> ClipBuilderView {
    ClipBuilderView {
        env,
        clip_id,
        metadata_uri,
        image: cleared(image),
        thumbnail: None,
        animation_url: cleared(animation_url),
        description: cleared(description),
        external_url: cleared(external_url),
        duration: None,
        category: None,
        language: None,
        virality_score: None,
        attributes: attributes.filter(|a: AttributeView| non_vacant_attribute(a)),
    }
}

/// Build and validate the clip's metadata, then write it as JSON. Blank
/// optional fields are left out, and so are attributes with neither a trait
/// type nor a value.
///
/// # Errors
/// The first failing check of [`ClipMetadataBuilder::validate`].
pub fn generate_ipfs_metadata(
    env: &Env,
    clip_id: u32,
    metadata_uri: Vec<u8>,
    image: Option<Vec<u8>>,
    animation_url: Option<Vec<u8>>,
    description: Option<Vec<u8>>,
    external_url: Option<Vec<u8>>,
    attributes: Vec<Attribute>,
) -> (r: Result<Vec<u8>, Error>)
    ensures
        ({
            let v = document_view(
                *env,
                clip_id,
                metadata_uri@,
                opt_bytes(image),
                opt_bytes(animation_url),
                opt_bytes(description),
                opt_bytes(external_url),
                attrs_view(attributes@),
            );
            &&& r is Err <==> clip_builder_check(v) is Err
            &&& r matches Err(e) ==> clip_builder_check(v) == Err::<(), Error>(e)
            &&& r matches Ok(j) ==> j@ == json_object(clip_json_parts(v))
        }),
{
    let builder = ClipMetadataBuilder::new(env, clip_id, metadata_uri)
        .with_image(image)
        .with_animation_url(animation_url)
        .with_description(description)
        .with_external_url(external_url)
        .with_attributes(attributes);
    builder.to_json()
}

} // verus!
