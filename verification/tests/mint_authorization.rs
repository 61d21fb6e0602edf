use clips_nft::env::Env;
use clips_nft::mint_authorization::{is_minter, remove_approved_minter, require_mint_auth, set_approved_minter};
use clips_nft::types::Error;

fn new_env() -> Env {
    let mut env = Env::new(0, 1_000_000);
    env.authorize_all();
    env
}

#[test]
fn test_contract_owner_is_authorized() {
    let mut env = new_env();
    let owner = 101;
    env.instance.admin = Some(owner);
    assert!(require_mint_auth(&env, owner).is_ok());
}

#[test]
fn test_non_owner_is_unauthorized_without_minter_role() {
    let mut env = new_env();
    let owner = 101;
    let other = 102;
    env.instance.admin = Some(owner);
    assert_eq!(require_mint_auth(&env, other), Err(Error::UnauthorizedMinter));
}

#[test]
fn test_approved_minter_is_authorized() {
    let mut env = new_env();
    let owner = 101;
    let minter = 102;
    env.instance.admin = Some(owner);
    set_approved_minter(&mut env, minter);
    assert!(require_mint_auth(&env, minter).is_ok());
}

#[test]
fn test_remove_minter_revokes_authorization() {
    let mut env = new_env();
    let owner = 101;
    let minter = 102;
    env.instance.admin = Some(owner);
    set_approved_minter(&mut env, minter);
    remove_approved_minter(&mut env, minter);
    assert_eq!(require_mint_auth(&env, minter), Err(Error::UnauthorizedMinter));
}

#[test]
fn test_is_minter_returns_true_for_approved() {
    let mut env = new_env();
    let minter = 101;
    set_approved_minter(&mut env, minter);
    assert!(is_minter(&env, minter));
}

#[test]
fn test_is_minter_returns_false_for_non_approved() {
    let env = new_env();
    let minter = 101;
    assert!(!is_minter(&env, minter));
}

#[test]
fn unconfigured_contract_reports_not_initialized() {
    let env = new_env();
    assert_eq!(require_mint_auth(&env, 101), Err(Error::NotInitialized));
}
