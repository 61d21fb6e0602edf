use clips_nft::env::Env;
use clips_nft::marketplace::offer_storage::{get_offer, has_offer, remove_expired_offers, remove_offer, save_offer, update_offer};
use clips_nft::marketplace::types::{Offer, OfferStatus};
use clips_nft::types::{Address, Error, TokenId};

fn new_env() -> Env {
    Env::new(1_000, 1_000_000)
}

fn sample_offer(token_id: TokenId, buyer: Address, expires_at: u64) -> Offer {
    Offer {
        offer_id: 1,
        token_id,
        buyer,
        price: 5_000,
        payment_asset: 99,
        expires_at,
        status: OfferStatus::Active,
        created_at: 0,
    }
}

#[test]
fn save_and_get_offer() {
    let mut env = new_env();
    let buyer = 10;
    save_offer(&mut env, &sample_offer(1, buyer, 0));
    let loaded = get_offer(&env, 1).unwrap();
    assert_eq!(loaded.buyer, buyer);
    assert_eq!(loaded.price, 5_000);
    assert_eq!(loaded.status, OfferStatus::Active);
}

#[test]
fn has_offer_works() {
    let mut env = new_env();
    assert!(!has_offer(&env, 1));
    save_offer(&mut env, &sample_offer(1, 10, 0));
    assert!(has_offer(&env, 1));
}

#[test]
fn update_offer_works() {
    let mut env = new_env();
    let mut offer = sample_offer(1, 10, 0);
    save_offer(&mut env, &offer);
    offer.price = 10_000;
    offer.status = OfferStatus::Accepted;
    update_offer(&mut env, &offer).unwrap();
    let loaded = get_offer(&env, 1).unwrap();
    assert_eq!(loaded.price, 10_000);
    assert_eq!(loaded.status, OfferStatus::Accepted);
}

#[test]
fn update_offer_not_found() {
    let mut env = new_env();
    let offer = sample_offer(999, 10, 0);
    assert_eq!(update_offer(&mut env, &offer), Err(Error::TokenNotFound));
    assert!(!has_offer(&env, 999));
}

#[test]
fn remove_offer_works() {
    let mut env = new_env();
    save_offer(&mut env, &sample_offer(1, 10, 0));
    assert!(has_offer(&env, 1));
    remove_offer(&mut env, 1);
    assert!(!has_offer(&env, 1));
    assert_eq!(get_offer(&env, 1).unwrap_err(), Error::TokenNotFound);
}

#[test]
fn remove_expired_offers_removes_old() {
    let mut env = new_env();
    save_offer(&mut env, &sample_offer(1, 10, 100));
    save_offer(&mut env, &sample_offer(2, 10, 0));
    let removed = remove_expired_offers(&mut env);
    assert_eq!(removed, 1);
    assert!(!has_offer(&env, 1));
    assert!(has_offer(&env, 2));
}

#[test]
fn remove_expired_offers_keeps_future_and_boundary_rules() {
    let mut env = new_env();
    save_offer(&mut env, &sample_offer(1, 10, 1_000));
    save_offer(&mut env, &sample_offer(2, 10, 1_001));
    save_offer(&mut env, &sample_offer(3, 10, 999));
    save_offer(&mut env, &sample_offer(3, 11, 5_000));
    assert_eq!(remove_expired_offers(&mut env), 1);
    assert!(!has_offer(&env, 1));
    assert!(has_offer(&env, 2));
    assert!(has_offer(&env, 3));
    assert_eq!(get_offer(&env, 3).unwrap().buyer, 11);
    assert_eq!(remove_expired_offers(&mut env), 0);
}
