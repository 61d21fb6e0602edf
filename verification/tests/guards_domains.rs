use clips_nft::env::Env;
use clips_nft::guards::{
    check_caller_is_admin, check_caller_is_owner, detect_replay_payment, get_configured_admin, get_owner_for_token,
    is_payment_already_processed, record_payment_processed, require_admin, require_owner, validate_royalty_recipient,
    validate_royalty_state, validate_royalty_within_maximum, GuardBuilder, GuardComposition,
};
use clips_nft::ownership::save_owner;
use clips_nft::types::{Error, TokenId};

const CONTRACT: u64 = 1_000_000;

fn with_contract<F, R>(f: F) -> R
where
    F: FnOnce(&mut Env) -> R,
{
    let mut env = Env::new(0, CONTRACT);
    f(&mut env)
}

// ── admin ──────────────────────────────────────────────────────────────────

#[test]
fn require_admin_accepts_configured_admin() {
    with_contract(|env| {
        let admin = 11;
        env.instance.admin = Some(admin);
        assert!(require_admin(env, admin).is_ok());
    });
}

#[test]
fn require_admin_rejects_non_admin() {
    with_contract(|env| {
        let admin = 11;
        let other = 12;
        env.instance.admin = Some(admin);
        assert_eq!(require_admin(env, other), Err(Error::Unauthorized));
    });
}

#[test]
fn check_caller_is_admin_returns_boolean() {
    with_contract(|env| {
        let admin = 11;
        let other = 12;
        env.instance.admin = Some(admin);
        assert!(check_caller_is_admin(env, admin));
        assert!(!check_caller_is_admin(env, other));
    });
}

#[test]
fn get_configured_admin_returns_stored_admin() {
    with_contract(|env| {
        let admin = 11;
        env.instance.admin = Some(admin);
        let retrieved = get_configured_admin(env).unwrap();
        assert_eq!(retrieved, admin);
    });
}

#[test]
fn require_admin_without_admin_is_not_initialized() {
    with_contract(|env| {
        assert_eq!(require_admin(env, 11), Err(Error::NotInitialized));
        assert_eq!(get_configured_admin(env), Err(Error::NotInitialized));
        assert!(!check_caller_is_admin(env, 11));
    });
}

// ── owner ──────────────────────────────────────────────────────────────────

#[test]
fn check_caller_is_owner_returns_true_for_owner() {
    with_contract(|env| {
        let owner = 21;
        let token_id: TokenId = 1;
        save_owner(env, token_id, owner);
        assert!(check_caller_is_owner(env, token_id, owner));
    });
}

#[test]
fn check_caller_is_owner_returns_false_for_non_owner() {
    with_contract(|env| {
        let owner = 21;
        let other = 22;
        let token_id: TokenId = 1;
        save_owner(env, token_id, owner);
        assert!(!check_caller_is_owner(env, token_id, other));
    });
}

#[test]
fn require_owner_accepts_token_owner() {
    with_contract(|env| {
        let owner = 21;
        let token_id: TokenId = 1;
        save_owner(env, token_id, owner);
        assert!(require_owner(env, token_id, owner).is_ok());
    });
}

#[test]
fn require_owner_rejects_non_owner() {
    with_contract(|env| {
        let owner = 21;
        let other = 22;
        let token_id: TokenId = 1;
        save_owner(env, token_id, owner);
        assert_eq!(require_owner(env, token_id, other), Err(Error::Unauthorized));
    });
}

#[test]
fn get_owner_for_token_returns_stored_owner() {
    with_contract(|env| {
        let owner = 21;
        let token_id: TokenId = 1;
        save_owner(env, token_id, owner);
        let retrieved = get_owner_for_token(env, token_id).unwrap();
        assert_eq!(retrieved, owner);
    });
}

#[test]
fn owner_checks_on_unknown_token() {
    with_contract(|env| {
        assert_eq!(get_owner_for_token(env, 5), Err(Error::TokenNotFound));
        assert_eq!(require_owner(env, 5, 21), Err(Error::TokenNotFound));
        assert!(!check_caller_is_owner(env, 5, 21));
    });
}

// ── payment ────────────────────────────────────────────────────────────────

#[test]
fn detect_replay_payment_allows_first_payment() {
    with_contract(|env| {
        let payer = 31;
        assert!(detect_replay_payment(env, payer, 1, 1000).is_ok());
    });
}

#[test]
fn is_payment_already_processed_returns_false_initially() {
    with_contract(|env| {
        assert!(!is_payment_already_processed(env, 31, 1, 1000));
    });
}

#[test]
fn record_payment_processed_succeeds() {
    with_contract(|env| {
        assert!(record_payment_processed(env, 31, 1, 1000).is_ok());
    });
}

#[test]
fn payment_flow_is_idempotent() {
    with_contract(|env| {
        let payer = 31;
        let token_id: TokenId = 1;
        let sale_price = 1000i128;
        assert!(detect_replay_payment(env, payer, token_id, sale_price).is_ok());
        assert!(!is_payment_already_processed(env, payer, token_id, sale_price));
        assert!(record_payment_processed(env, payer, token_id, sale_price).is_ok());
        assert!(!is_payment_already_processed(env, payer, token_id, sale_price));
    });
}

#[test]
fn different_payments_are_independent() {
    with_contract(|env| {
        let payer1 = 31;
        let payer2 = 32;
        assert!(detect_replay_payment(env, payer1, 1, 1000).is_ok());
        assert!(detect_replay_payment(env, payer2, 1, 1000).is_ok());
        assert!(detect_replay_payment(env, payer1, 1, 1000).is_ok());
        assert!(detect_replay_payment(env, payer1, 2, 1000).is_ok());
        assert!(detect_replay_payment(env, payer1, 1, 1000).is_ok());
        assert!(detect_replay_payment(env, payer1, 1, 2000).is_ok());
    });
}

// ── royalty ────────────────────────────────────────────────────────────────

#[test]
fn validate_royalty_recipient_accepts_valid_address() {
    with_contract(|env| {
        assert!(validate_royalty_recipient(env, 41).is_ok());
    });
}

#[test]
fn validate_royalty_state_accepts_valid_state() {
    with_contract(|env| {
        assert!(validate_royalty_state(env, 1).is_ok());
    });
}

#[test]
fn validate_royalty_within_maximum_accepts_valid_bps() {
    with_contract(|env| {
        assert!(validate_royalty_within_maximum(env, 5000).is_ok());
    });
}

#[test]
fn guards_are_composed_safely() {
    with_contract(|env| {
        assert!(validate_royalty_recipient(env, 41).is_ok());
        assert!(validate_royalty_state(env, 1).is_ok());
        assert!(validate_royalty_within_maximum(env, 2500).is_ok());
    });
}

// ── composition ────────────────────────────────────────────────────────────

#[test]
fn guard_composition_short_circuits_on_error() {
    with_contract(|env| {
        let env: &Env = env;
        let result = GuardComposition::sequence(env)
            .then(|_| Err(Error::Unauthorized))
            .then(|_| panic!("should not be called"))
            .execute();
        assert!(result.is_err());
    });
}

#[test]
fn guard_composition_continues_on_success() {
    with_contract(|env| {
        let env: &Env = env;
        let mut call_count = 0;
        let result = GuardComposition::sequence(env)
            .then(|_| {
                call_count += 1;
                Ok(())
            })
            .then(|_| {
                call_count += 1;
                Ok(())
            })
            .execute();
        assert!(result.is_ok());
        assert_eq!(call_count, 2);
    });
}

#[test]
fn guard_builder_can_be_created_with_env() {
    with_contract(|env| {
        let env: &Env = env;
        let _builder = GuardBuilder::with(env);
    });
}

#[test]
fn guard_composition_returns_the_first_error() {
    with_contract(|env| {
        let env: &Env = env;
        let result = GuardComposition::sequence(env)
            .then(|_| Ok(()))
            .then(|_| Err(Error::ContractPaused))
            .then(|_| -> Result<(), Error> { panic!("should not be called") })
            .execute();
        assert_eq!(result, Err(Error::ContractPaused));
        let single = GuardComposition::sequence(env).then(|_| Err(Error::TokenNotFound)).execute();
        assert_eq!(single, Err(Error::TokenNotFound));
    });
}

// ── invocation authorization ──────────────────────────────────────────────

#[test]
fn authorization_is_per_account_unless_all_are_mocked() {
    let mut env = Env::new(0, CONTRACT);
    assert!(!env.is_authorized(11));
    env.authorize(11);
    assert!(env.is_authorized(11));
    assert!(!env.is_authorized(12));
    env.authorize_all();
    assert!(env.is_authorized(12));
}
