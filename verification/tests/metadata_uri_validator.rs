use clips_nft::metadata_uri_validator::{validate_metadata_uri, validate_optional_metadata_uri, MAX_METADATA_URI_LEN};
use clips_nft::types::Error;

fn s(x: &str) -> Vec<u8> {
    x.as_bytes().to_vec()
}

#[test]
fn valid_ipfs_uri_passes() {
    assert!(validate_metadata_uri(&s("ipfs://QmXyZ123")).is_ok());
}

#[test]
fn valid_https_uri_passes() {
    assert!(validate_metadata_uri(&s("https://example.com/metadata.json")).is_ok());
}

#[test]
fn valid_arweave_uri_passes() {
    assert!(validate_metadata_uri(&s("ar://abc123")).is_ok());
}

#[test]
fn empty_uri_fails() {
    assert_eq!(validate_metadata_uri(&s("")), Err(Error::InvalidURI));
}

#[test]
fn invalid_http_uri_fails() {
    assert_eq!(validate_metadata_uri(&s("http://example.com")), Err(Error::InvalidURI));
}

#[test]
fn invalid_ftp_uri_fails() {
    assert_eq!(validate_metadata_uri(&s("ftp://example.com")), Err(Error::InvalidURI));
}

#[test]
fn too_short_uri_fails() {
    assert_eq!(validate_metadata_uri(&s("ipfs")), Err(Error::InvalidURI));
}

#[test]
fn prefix_only_uri_fails() {
    for uri in ["ipfs://", "https://", "ar://"] {
        assert_eq!(validate_metadata_uri(&s(uri)), Err(Error::InvalidURI));
    }
}

#[test]
fn uri_with_whitespace_fails() {
    assert_eq!(validate_metadata_uri(&s("ipfs://Qm Xy")), Err(Error::InvalidURI));
    assert_eq!(validate_metadata_uri(&s("https://example.com/\n")), Err(Error::InvalidURI));
    assert_eq!(validate_metadata_uri(&s("https://example.com/\t")), Err(Error::InvalidURI));
}

fn uri_of_len(len: u32) -> Vec<u8> {
    let mut bytes = b"ipfs://".to_vec();
    while (bytes.len() as u32) < len {
        bytes.push(b'a');
    }
    bytes.truncate(len as usize);
    bytes
}

#[test]
fn uri_at_max_length_passes() {
    let uri = uri_of_len(MAX_METADATA_URI_LEN);
    assert!(validate_metadata_uri(&uri).is_ok());
}

#[test]
fn uri_over_max_length_fails() {
    let uri = uri_of_len(MAX_METADATA_URI_LEN + 1);
    assert_eq!(validate_metadata_uri(&uri), Err(Error::InvalidURI));
}

#[test]
fn optional_uri_accepts_empty() {
    assert!(validate_optional_metadata_uri(&s("")).is_ok());
}

#[test]
fn optional_uri_still_validates_non_empty() {
    assert!(validate_optional_metadata_uri(&s("ar://abc123")).is_ok());
    assert_eq!(validate_optional_metadata_uri(&s("ftp://example.com")), Err(Error::InvalidURI));
}

#[test]
fn control_characters_are_refused_anywhere() {
    assert_eq!(validate_metadata_uri(&s("ipfs://Qm\rXy")), Err(Error::InvalidURI));
    assert_eq!(validate_metadata_uri(&s("ar://a\u{7f}b")), Err(Error::InvalidURI));
}
