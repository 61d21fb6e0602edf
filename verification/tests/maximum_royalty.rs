use clips_nft::env::Env;
use clips_nft::maximum_royalty::{
    allowed_royalty_bps, get_max_royalty_bps, has_max_royalty_bps, set_max_royalty_bps, validate_royalty_within_max,
};
use clips_nft::metadata::constants::{default_image, default_image_mime_type, DEFAULT_IMAGE, DEFAULT_IMAGE_MIME_TYPE};
use clips_nft::types::{Error, MAX_ROYALTY_BPS};

fn with_contract<F, R>(f: F) -> R
where
    F: FnOnce(&mut Env) -> R,
{
    let mut env = Env::new(0, 1_000_000);
    f(&mut env)
}

#[test]
fn returns_max_constant_before_any_set() {
    with_contract(|env| {
        assert_eq!(get_max_royalty_bps(env), MAX_ROYALTY_BPS);
        assert!(!has_max_royalty_bps(env));
    });
}

#[test]
fn set_and_get_round_trip() {
    with_contract(|env| {
        set_max_royalty_bps(env, 1_000).unwrap();
        assert_eq!(get_max_royalty_bps(env), 1_000);
        assert!(has_max_royalty_bps(env));
    });
}

#[test]
fn zero_is_accepted() {
    with_contract(|env| {
        set_max_royalty_bps(env, 0).unwrap();
        assert_eq!(get_max_royalty_bps(env), 0);
    });
}

#[test]
fn max_constant_is_accepted() {
    with_contract(|env| {
        set_max_royalty_bps(env, MAX_ROYALTY_BPS).unwrap();
        assert_eq!(get_max_royalty_bps(env), MAX_ROYALTY_BPS);
    });
}

#[test]
fn above_max_constant_rejected() {
    with_contract(|env| {
        assert_eq!(set_max_royalty_bps(env, MAX_ROYALTY_BPS + 1), Err(Error::InvalidBasisPoints));
    });
}

#[test]
fn large_value_rejected() {
    with_contract(|env| {
        assert_eq!(set_max_royalty_bps(env, 50_000), Err(Error::InvalidBasisPoints));
    });
}

#[test]
fn overwrite_stores_latest_value() {
    with_contract(|env| {
        set_max_royalty_bps(env, 100).unwrap();
        set_max_royalty_bps(env, 5_000).unwrap();
        assert_eq!(get_max_royalty_bps(env), 5_000);
    });
}

#[test]
fn default_max_allows_up_to_ten_thousand() {
    with_contract(|env| {
        assert!(allowed_royalty_bps(env, MAX_ROYALTY_BPS));
        assert!(validate_royalty_within_max(env, MAX_ROYALTY_BPS).is_ok());
        assert!(!allowed_royalty_bps(env, MAX_ROYALTY_BPS + 1));
        assert_eq!(validate_royalty_within_max(env, MAX_ROYALTY_BPS + 1), Err(Error::RoyaltyTooHigh));
    });
}

#[test]
fn stricter_max_rejects_previously_valid_values() {
    with_contract(|env| {
        set_max_royalty_bps(env, 1_000).unwrap();
        assert!(allowed_royalty_bps(env, 1_000));
        assert!(validate_royalty_within_max(env, 1_000).is_ok());

        assert!(!allowed_royalty_bps(env, 1_001));
        assert_eq!(validate_royalty_within_max(env, 1_001), Err(Error::RoyaltyTooHigh));
    });
}

#[test]
fn zero_max_allows_only_zero() {
    with_contract(|env| {
        set_max_royalty_bps(env, 0).unwrap();
        assert!(allowed_royalty_bps(env, 0));
        assert!(!allowed_royalty_bps(env, 1));
    });
}

#[test]
fn test_default_image() {
    let env = Env::new(0, 1_000_000);
    assert_eq!(default_image(&env), DEFAULT_IMAGE.as_bytes().to_vec());
    assert_eq!(default_image_mime_type(&env), DEFAULT_IMAGE_MIME_TYPE.as_bytes().to_vec());
}
