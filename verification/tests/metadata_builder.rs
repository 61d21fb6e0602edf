#![allow(unused_mut, unused_variables, unused_imports)]
use clips_nft::env::Env;
use clips_nft::metadata::constants::{
    MAX_ATTRIBUTES_COUNT, MAX_DESCRIPTION_LENGTH, MAX_DISPLAY_TYPE_LENGTH, MAX_MIME_TYPE_LENGTH, MAX_TRAIT_TYPE_LENGTH,
    MAX_TRAIT_VALUE_LENGTH, MAX_URI_LENGTH, SUPPORTED_PROTOCOLS,
};
use clips_nft::metadata::helpers::{
    build_metadata_json, clear_optional_field, filter_empty_attributes, has_duplicate_traits, is_empty_string,
    normalize_url,
};
use clips_nft::metadata::metadata_builder::{ClipMetadataBuilder, TokenMetadataBuilder};
use clips_nft::metadata::storage::{get_metadata, metadata_exists, remove_metadata, save_metadata, update_metadata};
use clips_nft::metadata::types::{Attribute, ClipMetadata, CreatorMetadata, MetadataImage, TokenMetadata};
use clips_nft::metadata::validation::{
    validate_animation_url, validate_attributes, validate_description, validate_external_url, validate_image_url,
    validate_metadata_image, validate_metadata_uri, validate_url,
};
use clips_nft::social_platform::SocialPlatform;
use clips_nft::types::Error;

fn new_env() -> Env {
    Env::new(0, 1_000_000)
}

fn s(x: &str) -> Vec<u8> {
    x.as_bytes().to_vec()
}

trait ToText {
    fn to_text(&self) -> String;
}

impl ToText for Vec<u8> {
    fn to_text(&self) -> String {
        String::from_utf8(self.clone()).unwrap()
    }
}


#[test]
fn metadata_builder_test_clip_metadata_builder_minimal() {
    let mut env = new_env();
    let clip_id = 12345u32;
    let uri = s("ipfs://QmTestHash");

    let metadata = ClipMetadataBuilder::new(&env, clip_id, uri.clone())
        .build()
        .unwrap();

    assert_eq!(metadata.clip_id, clip_id);
    assert_eq!(metadata.metadata_uri, uri);
    assert_eq!(metadata.image, None);
    assert_eq!(metadata.animation_url, None);
    assert_eq!(metadata.description, None);
    assert_eq!(metadata.external_url, None);
    assert_eq!(metadata.attributes.len(), 0);
}

#[test]
fn test_clip_metadata_builder_full() {
    let mut env = new_env();
    let clip_id = 67890u32;
    let uri = s("ipfs://QmFullHash");
    let image = Some(s("https://example.com/image.jpg"));
    let animation = Some(s("ipfs://QmVideoHash"));
    let desc = Some(s("Epic gaming moment"));
    let external = Some(s("https://clipcash.com/clip/67890"));

    let mut attributes = Vec::new();
    attributes.push(Attribute {
        trait_type: s("rarity"),
        value: s("legendary"),
        display_type: None,
    });

    let metadata = ClipMetadataBuilder::new(&env, clip_id, uri.clone())
        .with_image(image.clone())
        .with_animation_url(animation.clone())
        .with_description(desc.clone())
        .with_external_url(external.clone())
        .with_attributes(attributes.clone())
        .build()
        .unwrap();

    assert_eq!(metadata.clip_id, clip_id);
    assert_eq!(metadata.metadata_uri, uri);
    assert_eq!(metadata.image, image);
    assert_eq!(metadata.animation_url, animation);
    assert_eq!(metadata.description, desc);
    assert_eq!(metadata.external_url, external);
    assert_eq!(metadata.attributes.len(), 1);
}

#[test]
fn test_clip_metadata_builder_add_attribute() {
    let mut env = new_env();
    let clip_id = 11111u32;
    let uri = s("ipfs://QmHash");

    let metadata = ClipMetadataBuilder::new(&env, clip_id, uri)
        .add_attribute(
            s("rarity"),
            s("legendary"),
        )
        .add_attribute(
            s("duration"),
            s("42s"),
        )
        .build()
        .unwrap();

    assert_eq!(metadata.attributes.len(), 2);
}

#[test]
fn test_clip_metadata_builder_validation() {
    let mut env = new_env();
    let clip_id = 22222u32;
    let invalid_uri = s("invalid://protocol");

    let result = ClipMetadataBuilder::new(&env, clip_id, invalid_uri)
        .with_image(Some(s("https://example.com/image.jpg",
        )))
        .build();

    assert!(result.is_err());
}

#[test]
fn metadata_builder_test_token_metadata_builder() {
    let mut env = new_env();
    let uri = s("ipfs://QmTokenHash");

    let metadata = TokenMetadataBuilder::new(&env, uri.clone())
        .with_image(Some(s("https://example.com/image.jpg",
        )))
        .with_description(Some(s("Test token")))
        .build()
        .unwrap();

    assert_eq!(metadata.metadata_uri, uri);
    assert!(metadata.image.is_some());
    assert!(metadata.description.is_some());
}

#[test]
fn test_builder_serialization() {
    let mut env = new_env();
    let clip_id = 33333u32;
    let uri = s("ipfs://QmHash");

    let json = ClipMetadataBuilder::new(&env, clip_id, uri)
        .with_description(Some(s("Test")))
        .to_json()
        .unwrap();

    assert!(json.to_text().contains("clip_id"));
    assert!(json.to_text().contains("description"));
}

#[test]
fn test_builder_chain_methods() {
    let mut env = new_env();
    let clip_id = 44444u32;
    let uri = s("ipfs://QmChain");

    // Test that methods can be chained in any order
    let metadata = ClipMetadataBuilder::new(&env, clip_id, uri)
        .with_description(Some(s("Test")))
        .with_image(Some(s("https://example.com/img.jpg")))
        .add_attribute(
            s("type"),
            s("value"),
        )
        .with_external_url(Some(s("https://example.com")))
        .build()
        .unwrap();

    assert!(metadata.description.is_some());
    assert!(metadata.image.is_some());
    assert!(metadata.external_url.is_some());
    assert_eq!(metadata.attributes.len(), 1);
}

#[test]
fn test_builder_empty_string_normalization() {
    let mut env = new_env();
    let clip_id = 55555u32;
    let uri = s("ipfs://QmHash");

    // Empty strings should be normalized to None
    let metadata = ClipMetadataBuilder::new(&env, clip_id, uri)
        .with_image(Some(s("")))
        .with_description(Some(s("   ")))
        .build()
        .unwrap();

    assert_eq!(metadata.image, None);
    assert_eq!(metadata.description, None);
}

// ========== ClipMetadataBuilder validation tests ==========

#[test]
fn test_builder_invalid_metadata_uri_fails() {
    let mut env = new_env();
    let invalid_uri = s("invalid://protocol");

    let result = ClipMetadataBuilder::new(&env, 12345, invalid_uri)
        .with_image(Some(s("https://example.com/image.jpg",
        )))
        .build();

    assert!(result.is_err());
}

#[test]
fn test_builder_invalid_image_url_fails() {
    let mut env = new_env();
    let uri = s("ipfs://QmHash");

    let result = ClipMetadataBuilder::new(&env, 12345, uri)
        .with_image(Some(s("ftp://invalid.com/image.png")))
        .build();

    assert!(result.is_err());
}

#[test]
fn test_builder_invalid_animation_url_fails() {
    let mut env = new_env();
    let uri = s("ipfs://QmHash");

    let result = ClipMetadataBuilder::new(&env, 12345, uri)
        .with_animation_url(Some(s("http://insecure.com/video.mp4",
        )))
        .build();

    assert!(result.is_err());
}

#[test]
fn test_builder_invalid_external_url_fails() {
    let mut env = new_env();
    let uri = s("ipfs://QmHash");

    let result = ClipMetadataBuilder::new(&env, 12345, uri)
        .with_external_url(Some(s("file:///path/to/file")))
        .build();

    assert!(result.is_err());
}

#[test]
fn test_builder_duplicate_traits_fails() {
    let mut env = new_env();
    let uri = s("ipfs://QmHash");

    let mut attrs = Vec::new();
    attrs.push(Attribute {
        trait_type: s("rarity"),
        value: s("legendary"),
        display_type: None,
    });
    attrs.push(Attribute {
        trait_type: s("rarity"),
        value: s("common"),
        display_type: None,
    });

    let result = ClipMetadataBuilder::new(&env, 12345, uri)
        .with_attributes(attrs)
        .build();

    assert!(result.is_err());
}

#[test]
fn test_builder_too_many_attributes_fails() {
    let mut env = new_env();
    let uri = s("ipfs://QmHash");

    let mut attrs = Vec::new();
    for i in 0..51 {
        attrs.push(Attribute {
            trait_type: s(&format!("trait{}", i)),
            value: s("value"),
            display_type: None,
        });
    }

    let result = ClipMetadataBuilder::new(&env, 12345, uri)
        .with_attributes(attrs)
        .build();

    assert!(result.is_err());
}

#[test]
fn test_builder_empty_trait_type_fails() {
    let mut env = new_env();
    let uri = s("ipfs://QmHash");

    let mut attrs = Vec::new();
    attrs.push(Attribute {
        trait_type: s(""),
        value: s("value"),
        display_type: None,
    });

    let result = ClipMetadataBuilder::new(&env, 12345, uri)
        .with_attributes(attrs)
        .build();

    assert!(result.is_err());
}

#[test]
fn test_builder_empty_attribute_value_fails() {
    let mut env = new_env();
    let uri = s("ipfs://QmHash");

    let mut attrs = Vec::new();
    attrs.push(Attribute {
        trait_type: s("trait"),
        value: s(""),
        display_type: None,
    });

    let result = ClipMetadataBuilder::new(&env, 12345, uri)
        .with_attributes(attrs)
        .build();

    assert!(result.is_err());
}

// ========== ClipMetadataBuilder serialization tests ==========

#[test]
fn test_builder_to_json_with_all_fields() {
    let mut env = new_env();
    let clip_id = 12345u32;
    let uri = s("ipfs://QmHash");

    let json = ClipMetadataBuilder::new(&env, clip_id, uri)
        .with_image(Some(s("https://example.com/image.jpg",
        )))
        .with_animation_url(Some(s("ipfs://QmVideo")))
        .with_description(Some(s("Test description")))
        .with_external_url(Some(s("https://example.com")))
        .to_json()
        .unwrap();

    let json_str = json.to_text();
    assert!(json_str.contains("clip_id"));
    assert!(json_str.contains("metadata_uri"));
    assert!(json_str.contains("image"));
    assert!(json_str.contains("animation_url"));
    assert!(json_str.contains("description"));
    assert!(json_str.contains("external_url"));
}

#[test]
fn test_builder_to_json_with_attributes() {
    let mut env = new_env();
    let clip_id = 12345u32;
    let uri = s("ipfs://QmHash");

    let json = ClipMetadataBuilder::new(&env, clip_id, uri)
        .add_attribute(
            s("rarity"),
            s("legendary"),
        )
        .add_attribute(
            s("duration"),
            s("42s"),
        )
        .to_json()
        .unwrap();

    let json_str = json.to_text();
    assert!(json_str.contains("rarity"));
    assert!(json_str.contains("legendary"));
    assert!(json_str.contains("duration"));
    assert!(json_str.contains("42s"));
}

#[test]
fn test_builder_to_json_without_optional_fields() {
    let mut env = new_env();
    let clip_id = 12345u32;
    let uri = s("ipfs://QmHash");

    let json = ClipMetadataBuilder::new(&env, clip_id, uri)
        .to_json()
        .unwrap();

    let json_str = json.to_text();
    assert!(json_str.contains("clip_id"));
    assert!(json_str.contains("metadata_uri"));
    assert!(!json_str.contains("image"));
    assert!(!json_str.contains("animation_url"));
    assert!(!json_str.contains("description"));
    assert!(!json_str.contains("external_url"));
    assert!(!json_str.contains("attributes"));
}

#[test]
fn test_builder_to_json_validation_fails() {
    let mut env = new_env();
    let invalid_uri = s("invalid://protocol");

    let result = ClipMetadataBuilder::new(&env, 12345, invalid_uri).to_json();

    assert!(result.is_err());
}

// ========== ClipMetadataBuilder build_unchecked tests ==========

#[test]
fn test_builder_build_unchecked_skips_validation() {
    let mut env = new_env();
    let invalid_uri = s("invalid://protocol");

    let metadata = ClipMetadataBuilder::new(&env, 12345, invalid_uri.clone()).build_unchecked();

    assert_eq!(metadata.metadata_uri, invalid_uri);
}

#[test]
fn test_builder_build_unchecked_preserves_all_fields() {
    let mut env = new_env();
    let uri = s("ipfs://QmHash");

    let metadata = ClipMetadataBuilder::new(&env, 12345, uri.clone())
        .with_image(Some(s("https://example.com/image.jpg",
        )))
        .with_description(Some(s("Test")))
        .build_unchecked();

    assert_eq!(metadata.clip_id, 12345);
    assert_eq!(metadata.metadata_uri, uri);
    assert!(metadata.image.is_some());
    assert!(metadata.description.is_some());
}

// ========== ClipMetadataBuilder with_thumbnail tests ==========

#[test]
fn test_builder_with_thumbnail() {
    let mut env = new_env();
    let uri = s("ipfs://QmHash");

    let thumbnail = s("https://example.com/thumb.jpg");

    let metadata = ClipMetadataBuilder::new(&env, 12345, uri)
        .with_thumbnail(Some(thumbnail.clone()))
        .build()
        .unwrap();

    assert_eq!(metadata.thumbnail, Some(thumbnail));
}

#[test]
fn test_builder_without_thumbnail() {
    let mut env = new_env();
    let uri = s("ipfs://QmHash");

    let metadata = ClipMetadataBuilder::new(&env, 12345, uri).build().unwrap();

    assert_eq!(metadata.thumbnail, None);
}

// ========== TokenMetadataBuilder tests ==========

#[test]
fn test_token_metadata_builder_minimal() {
    let mut env = new_env();
    let uri = s("ipfs://QmHash");

    let metadata = TokenMetadataBuilder::new(&env, uri.clone())
        .build()
        .unwrap();

    assert_eq!(metadata.metadata_uri, uri);
    assert_eq!(metadata.image, None);
    assert_eq!(metadata.animation_url, None);
    assert_eq!(metadata.description, None);
    assert_eq!(metadata.external_url, None);
    assert_eq!(metadata.attributes.len(), 0);
}

#[test]
fn test_token_metadata_builder_full() {
    let mut env = new_env();
    let uri = s("ipfs://QmHash");

    let metadata = TokenMetadataBuilder::new(&env, uri.clone())
        .with_image(Some(s("https://example.com/image.jpg",
        )))
        .with_animation_url(Some(s("ipfs://QmVideo")))
        .with_description(Some(s("Test description")))
        .with_external_url(Some(s("https://example.com")))
        .build()
        .unwrap();

    assert_eq!(metadata.metadata_uri, uri);
    assert!(metadata.image.is_some());
    assert!(metadata.animation_url.is_some());
    assert!(metadata.description.is_some());
    assert!(metadata.external_url.is_some());
}

#[test]
fn test_token_metadata_builder_add_attribute() {
    let mut env = new_env();
    let uri = s("ipfs://QmHash");

    let metadata = TokenMetadataBuilder::new(&env, uri)
        .add_attribute(
            s("rarity"),
            s("legendary"),
        )
        .add_attribute(
            s("duration"),
            s("42s"),
        )
        .build()
        .unwrap();

    assert_eq!(metadata.attributes.len(), 2);
}

#[test]
fn test_token_metadata_builder_validation_fails() {
    let mut env = new_env();
    let invalid_uri = s("invalid://protocol");

    let result = TokenMetadataBuilder::new(&env, invalid_uri)
        .with_image(Some(s("https://example.com/image.jpg",
        )))
        .build();

    assert!(result.is_err());
}

#[test]
fn test_token_metadata_builder_duplicate_traits_fails() {
    let mut env = new_env();
    let uri = s("ipfs://QmHash");

    let mut attrs = Vec::new();
    attrs.push(Attribute {
        trait_type: s("rarity"),
        value: s("legendary"),
        display_type: None,
    });
    attrs.push(Attribute {
        trait_type: s("rarity"),
        value: s("common"),
        display_type: None,
    });

    let result = TokenMetadataBuilder::new(&env, uri)
        .with_attributes(attrs)
        .build();

    assert!(result.is_err());
}

#[test]
fn test_token_metadata_builder_to_json() {
    let mut env = new_env();
    let uri = s("ipfs://QmHash");

    let json = TokenMetadataBuilder::new(&env, uri)
        .with_description(Some(s("Test")))
        .to_json()
        .unwrap();

    let json_str = json.to_text();
    assert!(json_str.contains("metadata_uri"));
    assert!(json_str.contains("description"));
}

#[test]
fn test_token_metadata_builder_build_unchecked() {
    let mut env = new_env();
    let invalid_uri = s("invalid://protocol");

    let metadata = TokenMetadataBuilder::new(&env, invalid_uri.clone()).build_unchecked();

    assert_eq!(metadata.metadata_uri, invalid_uri);
}

#[test]
fn test_token_metadata_builder_empty_string_normalization() {
    let mut env = new_env();
    let uri = s("ipfs://QmHash");

    let metadata = TokenMetadataBuilder::new(&env, uri)
        .with_image(Some(s("")))
        .with_description(Some(s("   ")))
        .build()
        .unwrap();

    assert_eq!(metadata.image, None);
    assert_eq!(metadata.description, None);
}

#[test]
fn test_token_metadata_builder_filter_empty_attributes() {
    let mut env = new_env();
    let uri = s("ipfs://QmHash");

    let mut attrs = Vec::new();
    attrs.push(Attribute {
        trait_type: s(""),
        value: s("value"),
        display_type: None,
    });
    attrs.push(Attribute {
        trait_type: s("valid_trait"),
        value: s("valid_value"),
        display_type: None,
    });

    let metadata = TokenMetadataBuilder::new(&env, uri)
        .with_attributes(attrs)
        .build()
        .unwrap();

    assert_eq!(metadata.attributes.len(), 1);
    assert_eq!(
        metadata.attributes.get(0).unwrap().trait_type,
        s("valid_trait")
    );
}


// ========== JSON text ==========

#[test]
fn builder_to_json_is_exact_json() {
    let env = new_env();
    let json = ClipMetadataBuilder::new(&env, 12345, s("ipfs://QmHash")).to_json().unwrap();
    assert_eq!(json.to_text(), "{\"clip_id\":12345,\"metadata_uri\":\"ipfs://QmHash\"}");
}

#[test]
fn builder_to_json_escapes_strings() {
    let env = new_env();
    let json = TokenMetadataBuilder::new(&env, s("ipfs://QmHash"))
        .with_description(Some(s("say \"hi\"\\\n\u{1}")))
        .add_attribute(s("ra\"re"), s("tab\there"))
        .to_json()
        .unwrap();
    assert_eq!(
        json.to_text(),
        "{\"metadata_uri\":\"ipfs://QmHash\",\"description\":\"say \\\"hi\\\"\\\\\\n\\u0001\",\"attributes\":[{\"trait_type\":\"ra\\\"re\",\"value\":\"tab\\there\"}]}"
    );
}
