use clips_nft::metadata::constants::{
    CURRENT_METADATA_VERSION, DEFAULT_MAX_METADATA_SIZE, DEFAULT_METADATA_VERSION, MAX_ATTRIBUTES_COUNT,
    MAX_DESCRIPTION_LENGTH, MAX_DISPLAY_TYPE_LENGTH, MAX_MIME_TYPE_LENGTH, MAX_TITLE_LENGTH, MAX_TRAIT_TYPE_LENGTH,
    MAX_TRAIT_VALUE_LENGTH, MAX_URI_BYTES, MAX_URI_LENGTH, SUPPORTED_PROTOCOLS,
};

#[test]
fn test_constants_are_set() {
    assert!(MAX_URI_LENGTH > 0);
    assert!(MAX_DESCRIPTION_LENGTH > 0);
    assert!(MAX_ATTRIBUTES_COUNT > 0);
    assert!(MAX_TRAIT_TYPE_LENGTH > 0);
    assert!(MAX_TRAIT_VALUE_LENGTH > 0);
    assert!(MAX_DISPLAY_TYPE_LENGTH > 0);
    assert!(MAX_MIME_TYPE_LENGTH > 0);
    assert!(MAX_TITLE_LENGTH > 0);
    assert!(DEFAULT_METADATA_VERSION > 0);
    assert!(CURRENT_METADATA_VERSION > 0);
    assert!(DEFAULT_MAX_METADATA_SIZE > 0);
}

#[test]
fn constants_test_supported_protocols() {
    assert_eq!(SUPPORTED_PROTOCOLS.len(), 3);
    assert!(SUPPORTED_PROTOCOLS.contains(&"https://"));
    assert!(SUPPORTED_PROTOCOLS.contains(&"ipfs://"));
    assert!(SUPPORTED_PROTOCOLS.contains(&"ar://"));
}

#[test]
fn test_uri_constants_consistency() {
    assert_eq!(MAX_URI_LENGTH, MAX_URI_BYTES);
}
