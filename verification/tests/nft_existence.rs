use clips_nft::env::Env;
use clips_nft::nft_existence_guard::{check_token_exists, require_token_exists};
use clips_nft::ownership::assign_owner;
use clips_nft::types::{TokenId, TokenNotFoundError};

fn with_contract<F, R>(f: F) -> R
where
    F: FnOnce(&mut Env) -> R,
{
    let mut env = Env::new(0, 1_000_000);
    f(&mut env)
}

fn setup_token(env: &mut Env, token_id: TokenId, owner: u64) {
    assign_owner(env, token_id, owner, token_id as u32).unwrap();
}

#[test]
fn require_token_exists_passes_for_existing_token() {
    with_contract(|env| {
        let owner = 101;
        let token_id = 1;
        setup_token(env, token_id, owner);
        assert!(require_token_exists(env, token_id).is_ok());
    });
}

#[test]
fn require_token_exists_fails_for_nonexistent_token() {
    with_contract(|env| {
        let nonexistent_token = 999;
        assert_eq!(require_token_exists(env, nonexistent_token), Err(TokenNotFoundError::TokenNotFound));
    });
}

#[test]
fn check_token_exists_returns_true_for_existing_token() {
    with_contract(|env| {
        let owner = 101;
        let token_id = 1;
        setup_token(env, token_id, owner);
        assert!(check_token_exists(env, token_id));
    });
}

#[test]
fn check_token_exists_returns_false_for_nonexistent_token() {
    with_contract(|env| {
        let nonexistent_token = 999;
        assert!(!check_token_exists(env, nonexistent_token));
    });
}

#[test]
fn check_token_exists_distinguishes_between_tokens() {
    with_contract(|env| {
        let owner = 101;
        setup_token(env, 1, owner);
        setup_token(env, 2, owner);
        setup_token(env, 5, owner);

        assert!(check_token_exists(env, 1));
        assert!(check_token_exists(env, 2));
        assert!(check_token_exists(env, 5));
        assert!(!check_token_exists(env, 3));
        assert!(!check_token_exists(env, 4));
        assert!(!check_token_exists(env, 6));
    });
}

#[test]
fn check_token_exists_is_deterministic_across_calls() {
    with_contract(|env| {
        let owner = 101;
        let token_id = 1;
        setup_token(env, token_id, owner);
        assert!(check_token_exists(env, token_id));
        assert!(check_token_exists(env, token_id));
        assert!(check_token_exists(env, token_id));
    });
}

#[test]
fn check_token_exists_handles_token_id_zero() {
    with_contract(|env| {
        let owner = 101;
        setup_token(env, 0, owner);
        assert!(check_token_exists(env, 0));
    });
}

#[test]
fn check_token_exists_handles_large_token_ids() {
    with_contract(|env| {
        let owner = 101;
        let large_id = u64::MAX;
        setup_token(env, large_id, owner);
        assert!(check_token_exists(env, large_id));
        assert!(!check_token_exists(env, large_id - 1));
    });
}

#[test]
fn require_token_exists_uses_token_not_found_error() {
    with_contract(|env| {
        let nonexistent = 999;
        let error = require_token_exists(env, nonexistent).unwrap_err();
        assert_eq!(error, TokenNotFoundError::TokenNotFound);
        assert_eq!(error.code(), TokenNotFoundError::CODE);
    });
}

#[test]
fn token_not_found_error_has_correct_code() {
    assert_eq!(TokenNotFoundError::CODE, 230);
}

#[test]
fn error_code_matches_centralized_registry() {
    with_contract(|env| {
        let _ = require_token_exists(env, 999);
        assert_eq!(TokenNotFoundError::CODE, 230);
        assert_eq!(TokenNotFoundError::NAME, "TokenNotFound");
    });
}
