#![allow(unused_mut, unused_variables, unused_imports)]
use clips_nft::env::Env;
use clips_nft::metadata::constants::{
    MAX_ATTRIBUTES_COUNT, MAX_DESCRIPTION_LENGTH, MAX_DISPLAY_TYPE_LENGTH, MAX_MIME_TYPE_LENGTH, MAX_TRAIT_TYPE_LENGTH,
    MAX_TRAIT_VALUE_LENGTH, MAX_URI_LENGTH, SUPPORTED_PROTOCOLS,
};
use clips_nft::metadata::helpers::{
    build_metadata_json, clear_optional_field, filter_empty_attributes, filter_vacant_attributes, has_duplicate_traits, is_empty_string,
    normalize_url,
};
use clips_nft::metadata::metadata_builder::{ClipMetadataBuilder, TokenMetadataBuilder};
use clips_nft::metadata::storage::{get_metadata, metadata_exists, remove_metadata, save_metadata, update_metadata};
use clips_nft::metadata::types::{Attribute, ClipMetadata, CreatorMetadata, MetadataImage, TokenMetadata};
use clips_nft::metadata::validation::{
    validate_animation_url, validate_attributes, validate_description, validate_external_url, validate_image_url,
    validate_metadata_image, validate_metadata_uri, validate_url,
};
use clips_nft::social_platform::SocialPlatform;
use clips_nft::types::Error;

fn new_env() -> Env {
    Env::new(0, 1_000_000)
}

fn s(x: &str) -> Vec<u8> {
    x.as_bytes().to_vec()
}

trait ToText {
    fn to_text(&self) -> String;
}

impl ToText for Vec<u8> {
    fn to_text(&self) -> String {
        String::from_utf8(self.clone()).unwrap()
    }
}


// ========== is_empty_string tests ==========

#[test]
fn test_is_empty_string_empty() {
    let s = s("");
    assert!(is_empty_string(&s));
}

#[test]
fn test_is_empty_string_non_empty() {
    let s = s("hello");
    assert!(!is_empty_string(&s));
}

#[test]
fn test_is_empty_string_whitespace() {
    let s = s("   ");
    assert!(!is_empty_string(&s));
}

// ========== clear_optional_field tests ==========

#[test]
fn test_clear_optional_field_none() {
    let field: Option<Vec<u8>> = None;
    assert_eq!(clear_optional_field(&field), None);
}

#[test]
fn test_clear_optional_field_some_non_empty() {
    let mut env = new_env();
    let field = Some(s("value"));
    assert_eq!(clear_optional_field(&field), Some(s("value")));
}

#[test]
fn test_clear_optional_field_some_empty() {
    let mut env = new_env();
    let field = Some(s(""));
    assert_eq!(clear_optional_field(&field), None);
}

// ========== normalize_url tests ==========

#[test]
fn test_normalize_url_returns_clone() {
    let mut env = new_env();
    let url = s("https://example.com/path");
    let normalized = normalize_url(&url);
    assert_eq!(url, normalized);
}

// ========== build_metadata_json tests ==========

#[test]
fn test_build_metadata_json_returns_placeholder() {
    let mut env = new_env();
    let uri = s("ipfs://QmHash");
    let image: Option<Vec<u8>> = None;
    let animation: Option<Vec<u8>> = None;
    let desc: Option<Vec<u8>> = None;
    let external: Option<Vec<u8>> = None;
    let attrs = Vec::new();

    let json = build_metadata_json(&env, &uri, &image, &animation, &desc, &external, &attrs);
    assert_eq!(json.to_text(), "{}");
}

// ========== has_duplicate_traits tests ==========

#[test]
fn test_has_duplicate_traits_empty() {
    let mut env = new_env();
    let attrs = Vec::new();
    assert!(!has_duplicate_traits(&attrs));
}

#[test]
fn test_has_duplicate_traits_single() {
    let mut env = new_env();
    let mut attrs = Vec::new();
    attrs.push(Attribute {
                trait_type: s("rarity"),
                value: s("legendary"),
                display_type: None,
            });
    assert!(!has_duplicate_traits(&attrs));
}

#[test]
fn test_has_duplicate_traits_no_duplicates() {
    let mut env = new_env();
    let mut attrs = Vec::new();
    attrs.push(Attribute {
                trait_type: s("rarity"),
                value: s("legendary"),
                display_type: None,
            });
    attrs.push(Attribute {
                trait_type: s("duration"),
                value: s("42s"),
                display_type: None,
            });
    assert!(!has_duplicate_traits(&attrs));
}

#[test]
fn test_has_duplicate_traits_with_duplicates() {
    let mut env = new_env();
    let mut attrs = Vec::new();
    attrs.push(Attribute {
                trait_type: s("rarity"),
                value: s("legendary"),
                display_type: None,
            });
    attrs.push(Attribute {
                trait_type: s("rarity"),
                value: s("common"),
                display_type: None,
            });
    assert!(has_duplicate_traits(&attrs));
}

#[test]
fn test_has_duplicate_traits_multiple_duplicates() {
    let mut env = new_env();
    let mut attrs = Vec::new();
    attrs.push(Attribute {
                trait_type: s("rarity"),
                value: s("legendary"),
                display_type: None,
            });
    attrs.push(Attribute {
                trait_type: s("duration"),
                value: s("42s"),
                display_type: None,
            });
    attrs.push(Attribute {
                trait_type: s("rarity"),
                value: s("epic"),
                display_type: None,
            });
    attrs.push(Attribute {
                trait_type: s("duration"),
                value: s("10s"),
                display_type: None,
            });
    assert!(has_duplicate_traits(&attrs));
}

#[test]
fn test_has_duplicate_traits_case_sensitive() {
    let mut env = new_env();
    let mut attrs = Vec::new();
    attrs.push(Attribute {
                trait_type: s("Rarity"),
                value: s("legendary"),
                display_type: None,
            });
    attrs.push(Attribute {
                trait_type: s("rarity"),
                value: s("common"),
                display_type: None,
            });
    assert!(!has_duplicate_traits(&attrs));
}

// ========== filter_empty_attributes tests ==========

#[test]
fn test_filter_empty_attributes_empty_vector() {
    let mut env = new_env();
    let attrs = Vec::new();
    let filtered = filter_empty_attributes(&env, &attrs);
    assert_eq!(filtered.len(), 0);
}

#[test]
fn test_filter_empty_attributes_all_valid() {
    let mut env = new_env();
    let mut attrs = Vec::new();
    attrs.push(Attribute {
                trait_type: s("rarity"),
                value: s("legendary"),
                display_type: None,
            });
    attrs.push(Attribute {
                trait_type: s("duration"),
                value: s("42s"),
                display_type: None,
            });

    let filtered = filter_empty_attributes(&env, &attrs);
    assert_eq!(filtered.len(), 2);
}

#[test]
fn test_filter_empty_attributes_removes_empty_trait_type() {
    let mut env = new_env();
    let mut attrs = Vec::new();
    attrs.push(Attribute {
                trait_type: s(""),
                value: s("value"),
                display_type: None,
            });
    attrs.push(Attribute {
                trait_type: s("valid_trait"),
                value: s("valid_value"),
                display_type: None,
            });

    let filtered = filter_empty_attributes(&env, &attrs);
    assert_eq!(filtered.len(), 1);
    assert_eq!(filtered.get(0).unwrap().trait_type, s("valid_trait"));
}

#[test]
fn test_filter_empty_attributes_removes_empty_value() {
    let mut env = new_env();
    let mut attrs = Vec::new();
    attrs.push(Attribute {
                trait_type: s("trait"),
                value: s(""),
                display_type: None,
            });
    attrs.push(Attribute {
                trait_type: s("valid_trait"),
                value: s("valid_value"),
                display_type: None,
            });

    let filtered = filter_empty_attributes(&env, &attrs);
    assert_eq!(filtered.len(), 1);
    assert_eq!(filtered.get(0).unwrap().value, s("valid_value"));
}

#[test]
fn test_filter_empty_attributes_removes_all_empty() {
    let mut env = new_env();
    let mut attrs = Vec::new();
    attrs.push(Attribute {
                trait_type: s(""),
                value: s(""),
                display_type: None,
            });
    attrs.push(Attribute {
                trait_type: s(""),
                value: s("value"),
                display_type: None,
            });

    let filtered = filter_empty_attributes(&env, &attrs);
    assert_eq!(filtered.len(), 0);
}

#[test]
fn test_filter_empty_attributes_preserves_order() {
    let mut env = new_env();
    let mut attrs = Vec::new();
    attrs.push(Attribute {
                trait_type: s("first"),
                value: s("1"),
                display_type: None,
            });
    attrs.push(Attribute {
                trait_type: s(""),
                value: s("2"),
                display_type: None,
            });
    attrs.push(Attribute {
                trait_type: s("third"),
                value: s("3"),
                display_type: None,
            });

    let filtered = filter_empty_attributes(&env, &attrs);
    assert_eq!(filtered.len(), 2);
    assert_eq!(filtered.get(0).unwrap().trait_type, s("first"));
    assert_eq!(filtered.get(1).unwrap().trait_type, s("third"));
}


// ========== blank fields and vacant attributes ==========

#[test]
fn clear_optional_field_treats_whitespace_as_absent() {
    assert_eq!(clear_optional_field(&Some(s(" \t\r\n"))), None);
    assert_eq!(clear_optional_field(&Some(s(" a "))), Some(s(" a ")));
}

#[test]
fn filter_vacant_attributes_keeps_partial_ones() {
    let attrs = vec![
        Attribute { trait_type: s(""), value: s(""), display_type: None },
        Attribute { trait_type: s(""), value: s("v"), display_type: None },
        Attribute { trait_type: s("t"), value: s(""), display_type: None },
        Attribute { trait_type: s("t"), value: s("v"), display_type: None },
    ];
    let kept = filter_vacant_attributes(&attrs);
    assert_eq!(kept.len(), 3);
    assert_eq!(kept[0].value, s("v"));
    assert_eq!(kept[1].trait_type, s("t"));
    let env = new_env();
    assert_eq!(filter_empty_attributes(&env, &attrs).len(), 1);
}
