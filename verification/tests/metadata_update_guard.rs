use clips_nft::controls::{freeze_token, unfreeze_token};
use clips_nft::env::Env;
use clips_nft::metadata_update_guard::{
    check_caller_authorized, check_metadata_update, check_not_frozen, check_token_exists, check_update_policy,
};
use clips_nft::metadata_update_policy::mark_update_used;
use clips_nft::ownership::assign_owner;
use clips_nft::token_records::set_creator_with_name;
use clips_nft::types::{Error, TokenId};

fn with_contract<F, R>(f: F) -> R
where
    F: FnOnce(&mut Env) -> R,
{
    let mut env = Env::new(0, 1_000_000);
    env.authorize_all();
    f(&mut env)
}

fn setup_token(env: &mut Env, token_id: TokenId, owner: u64) {
    assign_owner(env, token_id, owner, token_id as u32).unwrap();
}

fn add_admin(env: &mut Env, admin: u64) {
    env.instance.admin = Some(admin);
}

fn remove_admin(env: &mut Env, admin: u64) {
    if env.instance.admin == Some(admin) {
        env.instance.admin = None;
    }
}

fn set_creator(env: &mut Env, token_id: TokenId, creator: u64) {
    set_creator_with_name(env, token_id, creator, None);
}

#[test]
fn token_exists_passes_for_minted_token() {
    with_contract(|env| {
        setup_token(env, 1, 101);
        assert!(check_token_exists(env, 1).is_ok());
    });
}

#[test]
fn token_exists_fails_for_unminted_token() {
    with_contract(|env| {
        assert_eq!(check_token_exists(env, 999), Err(Error::TokenNotFound));
    });
}

#[test]
fn owner_is_authorized_to_update_metadata() {
    with_contract(|env| {
        let owner = 101;
        setup_token(env, 1, owner);
        assert!(check_caller_authorized(env, owner, 1).is_ok());
    });
}

#[test]
fn creator_is_authorized_to_update_metadata() {
    with_contract(|env| {
        let owner = 101;
        let creator = 102;
        setup_token(env, 1, owner);
        set_creator(env, 1, creator);
        assert!(check_caller_authorized(env, creator, 1).is_ok());
    });
}

#[test]
fn admin_is_authorized_to_update_metadata() {
    with_contract(|env| {
        let owner = 101;
        let admin = 102;
        setup_token(env, 1, owner);
        add_admin(env, admin);
        assert!(check_caller_authorized(env, admin, 1).is_ok());
    });
}

#[test]
fn stranger_is_unauthorized_to_update_metadata() {
    with_contract(|env| {
        let owner = 101;
        let stranger = 102;
        setup_token(env, 1, owner);
        assert_eq!(check_caller_authorized(env, stranger, 1), Err(Error::Unauthorized));
    });
}

#[test]
fn revoked_admin_is_unauthorized() {
    with_contract(|env| {
        let owner = 101;
        let admin = 102;
        setup_token(env, 1, owner);
        add_admin(env, admin);
        remove_admin(env, admin);
        assert_eq!(check_caller_authorized(env, admin, 1), Err(Error::Unauthorized));
    });
}

#[test]
fn unfrozen_token_passes_frozen_check() {
    with_contract(|env| {
        setup_token(env, 1, 101);
        assert!(check_not_frozen(env, 1).is_ok());
    });
}

#[test]
fn frozen_token_is_blocked() {
    with_contract(|env| {
        setup_token(env, 1, 101);
        freeze_token(env, 1);
        assert_eq!(check_not_frozen(env, 1), Err(Error::Unauthorized));
    });
}

#[test]
fn unfreezing_restores_metadata_update_permission() {
    with_contract(|env| {
        setup_token(env, 1, 101);
        freeze_token(env, 1);
        unfreeze_token(env, 1);
        assert!(check_not_frozen(env, 1).is_ok());
    });
}

#[test]
fn first_non_admin_update_is_allowed() {
    with_contract(|env| {
        let owner = 101;
        setup_token(env, 1, owner);
        assert!(check_update_policy(env, owner, 1).is_ok());
    });
}

#[test]
fn second_non_admin_update_is_blocked() {
    with_contract(|env| {
        let owner = 101;
        setup_token(env, 1, owner);
        mark_update_used(env, 1);
        assert_eq!(check_update_policy(env, owner, 1), Err(Error::MetadataAlreadyUpdated));
    });
}

#[test]
fn admin_can_update_after_slot_consumed() {
    with_contract(|env| {
        let owner = 101;
        let admin = 102;
        setup_token(env, 1, owner);
        add_admin(env, admin);
        mark_update_used(env, 1);
        assert!(check_update_policy(env, admin, 1).is_ok());
    });
}

#[test]
fn stranger_cannot_change_metadata_even_if_slot_available() {
    with_contract(|env| {
        let owner = 101;
        let stranger = 102;
        setup_token(env, 1, owner);
        assert_eq!(check_caller_authorized(env, stranger, 1), Err(Error::Unauthorized));
    });
}

#[test]
fn full_check_passes_for_valid_owner_update() {
    with_contract(|env| {
        let owner = 101;
        setup_token(env, 1, owner);
        assert!(check_metadata_update(env, owner, 1).is_ok());
    });
}

#[test]
fn full_check_fails_for_nonexistent_token() {
    with_contract(|env| {
        let caller = 101;
        assert_eq!(check_metadata_update(env, caller, 999), Err(Error::TokenNotFound));
    });
}

#[test]
fn full_check_fails_for_unauthorized_caller() {
    with_contract(|env| {
        let owner = 101;
        let stranger = 102;
        setup_token(env, 1, owner);
        assert_eq!(check_metadata_update(env, stranger, 1), Err(Error::Unauthorized));
    });
}

#[test]
fn full_check_fails_for_frozen_token() {
    with_contract(|env| {
        let owner = 101;
        setup_token(env, 1, owner);
        freeze_token(env, 1);
        assert_eq!(check_metadata_update(env, owner, 1), Err(Error::Unauthorized));
    });
}

#[test]
fn full_check_fails_when_update_slot_consumed() {
    with_contract(|env| {
        let owner = 101;
        setup_token(env, 1, owner);
        mark_update_used(env, 1);
        assert_eq!(check_metadata_update(env, owner, 1), Err(Error::MetadataAlreadyUpdated));
    });
}

#[test]
fn full_check_admin_bypasses_update_slot() {
    with_contract(|env| {
        let owner = 101;
        let admin = 102;
        setup_token(env, 1, owner);
        add_admin(env, admin);
        mark_update_used(env, 1);
        assert!(check_metadata_update(env, admin, 1).is_ok());
    });
}

#[test]
fn full_check_creator_can_update_metadata() {
    with_contract(|env| {
        let owner = 101;
        let creator = 102;
        setup_token(env, 1, owner);
        set_creator(env, 1, creator);
        assert!(check_metadata_update(env, creator, 1).is_ok());
    });
}

#[test]
fn full_check_creator_blocked_after_slot_consumed() {
    with_contract(|env| {
        let owner = 101;
        let creator = 102;
        setup_token(env, 1, owner);
        set_creator(env, 1, creator);
        mark_update_used(env, 1);
        assert_eq!(check_metadata_update(env, creator, 1), Err(Error::MetadataAlreadyUpdated));
    });
}

#[test]
fn guards_are_checked_in_order_existence_before_authorization() {
    with_contract(|env| {
        let stranger = 101;
        assert_eq!(check_metadata_update(env, stranger, 42), Err(Error::TokenNotFound));
    });
}
