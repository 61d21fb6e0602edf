use clips_nft::controls::{add_currency, add_wallet, freeze_token, save_pause_state};
use clips_nft::env::Env;
use clips_nft::events::ContractEvent;
use clips_nft::fees::{get_platform_revenue, get_royalty_history, save_platform_recipient, set_platform_fee, set_royalty};
use clips_nft::marketplace::listing_storage::{get_listing, save_listing};
use clips_nft::marketplace::purchase::purchase_listing;
use clips_nft::marketplace::types::{Listing, ListingStatus};
use clips_nft::ownership::{add_token_to_wallet, assign_owner, get_owner, get_token, get_wallet_tokens};
use clips_nft::types::{Address, Error, Royalty, RoyaltyRecipient, TokenId};

const CONTRACT: Address = 1_000_000;

fn with_contract<F, R>(f: F) -> R
where
    F: FnOnce(&mut Env) -> R,
{
    let mut env = Env::new(0, CONTRACT);
    env.authorize_all();
    f(&mut env)
}

fn setup_token(env: &mut Env, token_id: TokenId, owner: Address) {
    assign_owner(env, token_id, owner, token_id as u32).unwrap();
}

fn setup_payment_asset(env: &mut Env) -> Address {
    let asset = 500;
    add_currency(env, asset).unwrap();
    asset
}

fn setup_listing(env: &mut Env, token_id: TokenId, seller: Address, price: i128, asset: Address, expires_at: u64) {
    let created_at = env.timestamp;
    save_listing(
        env,
        &Listing {
            token_id,
            seller,
            price,
            payment_asset: asset,
            expires_at,
            status: ListingStatus::Active,
            created_at,
            buyer: None,
            sold_at: None,
        },
    );
}

fn setup_royalty(env: &mut Env, token_id: TokenId, recipient: Address, bps: u32) {
    set_royalty(
        env,
        token_id,
        Royalty { recipients: vec![RoyaltyRecipient { recipient, basis_points: bps }], asset_address: None },
    );
}

#[test]
fn purchase_fails_when_no_listing_exists() {
    with_contract(|env| {
        assert_eq!(purchase_listing(env, 11, 999).unwrap_err(), Error::TokenNotFound);
    });
}

#[test]
fn purchase_fails_when_listing_not_active() {
    with_contract(|env| {
        let (seller, buyer) = (10, 11);
        let asset = setup_payment_asset(env);
        setup_token(env, 1, seller);
        save_listing(
            env,
            &Listing {
                token_id: 1,
                seller,
                price: 1000,
                payment_asset: asset,
                expires_at: 0,
                status: ListingStatus::Sold,
                created_at: 0,
                buyer: None,
                sold_at: None,
            },
        );
        assert_eq!(purchase_listing(env, buyer, 1).unwrap_err(), Error::ListingNotActive);
    });
}

#[test]
fn purchase_fails_when_listing_expired() {
    with_contract(|env| {
        env.set_timestamp(1000);
        let (seller, buyer) = (10, 11);
        let asset = setup_payment_asset(env);
        setup_token(env, 1, seller);
        setup_listing(env, 1, seller, 1000, asset, 500);
        assert_eq!(purchase_listing(env, buyer, 1).unwrap_err(), Error::ListingExpired);
    });
}

#[test]
fn purchase_succeeds_when_listing_no_expiration() {
    with_contract(|env| {
        let (seller, buyer, royalty_recipient) = (10, 11, 12);
        let asset = setup_payment_asset(env);
        setup_token(env, 1, seller);
        setup_listing(env, 1, seller, 1_000_000, asset, 0);
        setup_royalty(env, 1, royalty_recipient, 500);
        let result = purchase_listing(env, buyer, 1).unwrap();
        assert_eq!(result.token_id, 1);
        assert_eq!(result.seller, seller);
        assert_eq!(result.buyer, buyer);
        assert_eq!(result.sale_price, 1_000_000);
    });
}

#[test]
fn purchase_fails_when_buyer_is_seller() {
    with_contract(|env| {
        let seller = 10;
        let asset = setup_payment_asset(env);
        setup_token(env, 1, seller);
        setup_listing(env, 1, seller, 1000, asset, 0);
        assert_eq!(purchase_listing(env, seller, 1).unwrap_err(), Error::CannotPurchaseOwnListing);
    });
}

#[test]
fn purchase_fails_when_buyer_is_blacklisted() {
    with_contract(|env| {
        let (seller, buyer) = (10, 11);
        let asset = setup_payment_asset(env);
        setup_token(env, 1, seller);
        setup_listing(env, 1, seller, 1000, asset, 0);
        add_wallet(env, buyer);
        assert_eq!(purchase_listing(env, buyer, 1).unwrap_err(), Error::InvalidAddress);
    });
}

#[test]
fn purchase_fails_when_buyer_is_contract() {
    with_contract(|env| {
        let seller = 10;
        let asset = setup_payment_asset(env);
        setup_token(env, 1, seller);
        setup_listing(env, 1, seller, 1000, asset, 0);
        let contract = env.contract_address;
        assert_eq!(purchase_listing(env, contract, 1).unwrap_err(), Error::InvalidRecipient);
    });
}

#[test]
fn purchase_fails_when_token_is_frozen() {
    with_contract(|env| {
        let (seller, buyer) = (10, 11);
        let asset = setup_payment_asset(env);
        setup_token(env, 1, seller);
        setup_listing(env, 1, seller, 1000, asset, 0);
        freeze_token(env, 1);
        assert_eq!(purchase_listing(env, buyer, 1).unwrap_err(), Error::Unauthorized);
    });
}

#[test]
fn purchase_calculates_zero_royalty_when_none_configured() {
    with_contract(|env| {
        let (seller, buyer) = (10, 11);
        let asset = setup_payment_asset(env);
        setup_token(env, 1, seller);
        setup_listing(env, 1, seller, 1_000_000, asset, 0);
        let result = purchase_listing(env, buyer, 1).unwrap();
        assert_eq!(result.total_royalty, 0);
        assert_eq!(result.platform_fee, 0);
        assert_eq!(result.royalty_payments.len(), 0);
    });
}

#[test]
fn purchase_calculates_correct_royalty_split() {
    with_contract(|env| {
        let (seller, buyer, royalty_recipient) = (10, 11, 12);
        let asset = setup_payment_asset(env);
        setup_token(env, 1, seller);
        setup_listing(env, 1, seller, 1_000_000, asset, 0);
        setup_royalty(env, 1, royalty_recipient, 500);
        let result = purchase_listing(env, buyer, 1).unwrap();
        assert_eq!(result.total_royalty, 50_000);
        assert_eq!(result.platform_fee, 0);
        assert_eq!(result.royalty_payments.len(), 1);
        assert_eq!(result.royalty_payments[0].recipient, royalty_recipient);
        assert_eq!(result.royalty_payments[0].amount, 50_000);
    });
}

#[test]
fn purchase_calculates_platform_fee() {
    with_contract(|env| {
        let (seller, buyer) = (10, 11);
        let asset = setup_payment_asset(env);
        setup_token(env, 1, seller);
        setup_listing(env, 1, seller, 1_000_000, asset, 0);
        set_platform_fee(env, 250).unwrap();
        let result = purchase_listing(env, buyer, 1).unwrap();
        assert_eq!(result.platform_fee, 25_000);
        assert_eq!(result.total_royalty, 0);
    });
}

#[test]
fn purchase_calculates_combined_royalty_and_platform_fee() {
    with_contract(|env| {
        let (seller, buyer, royalty_recipient) = (10, 11, 12);
        let asset = setup_payment_asset(env);
        setup_token(env, 1, seller);
        setup_listing(env, 1, seller, 1_000_000, asset, 0);
        setup_royalty(env, 1, royalty_recipient, 500);
        set_platform_fee(env, 100).unwrap();
        let result = purchase_listing(env, buyer, 1).unwrap();
        assert_eq!(result.total_royalty, 50_000);
        assert_eq!(result.platform_fee, 10_000);
        assert_eq!(result.sale_price, 1_000_000);
    });
}

#[test]
fn purchase_fails_when_total_deductions_exceed_sale_price() {
    with_contract(|env| {
        let (seller, buyer, royalty_recipient) = (10, 11, 12);
        let asset = setup_payment_asset(env);
        setup_token(env, 1, seller);
        setup_listing(env, 1, seller, 10_000, asset, 0);
        setup_royalty(env, 1, royalty_recipient, 9_500);
        set_platform_fee(env, 1_000).unwrap();
        assert_eq!(purchase_listing(env, buyer, 1).unwrap_err(), Error::TotalDeductionsExceedSalePrice);
    });
}

#[test]
fn purchase_records_royalty_in_history() {
    with_contract(|env| {
        let (seller, buyer, royalty_recipient) = (10, 11, 12);
        let asset = setup_payment_asset(env);
        setup_token(env, 1, seller);
        setup_listing(env, 1, seller, 1_000_000, asset, 0);
        setup_royalty(env, 1, royalty_recipient, 500);
        let _result = purchase_listing(env, buyer, 1).unwrap();
        let history = get_royalty_history(env, 1);
        assert_eq!(history.len(), 1);
        assert_eq!(history[0].recipient, royalty_recipient);
        assert_eq!(history[0].amount, 50_000);
    });
}

#[test]
fn purchase_updates_platform_revenue() {
    with_contract(|env| {
        let (seller, buyer, platform_wallet) = (10, 11, 13);
        let asset = setup_payment_asset(env);
        setup_token(env, 1, seller);
        setup_listing(env, 1, seller, 1_000_000, asset, 0);
        set_platform_fee(env, 250).unwrap();
        save_platform_recipient(env, platform_wallet);
        let _result = purchase_listing(env, buyer, 1).unwrap();
        assert_eq!(get_platform_revenue(env), 25_000);
    });
}

#[test]
fn purchase_transfers_token_ownership() {
    with_contract(|env| {
        let (seller, buyer) = (10, 11);
        let asset = setup_payment_asset(env);
        setup_token(env, 1, seller);
        setup_listing(env, 1, seller, 1000, asset, 0);
        let _result = purchase_listing(env, buyer, 1).unwrap();
        assert_eq!(get_owner(env, 1).unwrap(), buyer);
        assert_eq!(get_token(env, 1).unwrap().owner, buyer);
    });
}

#[test]
fn purchase_updates_wallet_indexes() {
    with_contract(|env| {
        let (seller, buyer) = (10, 11);
        let asset = setup_payment_asset(env);
        setup_token(env, 1, seller);
        add_token_to_wallet(env, seller, 1);
        setup_listing(env, 1, seller, 1000, asset, 0);
        let _result = purchase_listing(env, buyer, 1).unwrap();
        let seller_tokens = get_wallet_tokens(env, seller);
        assert_eq!(seller_tokens.len(), 0);
        let buyer_tokens = get_wallet_tokens(env, buyer);
        assert_eq!(buyer_tokens.len(), 1);
        assert_eq!(buyer_tokens[0], 1);
    });
}

#[test]
fn purchase_marks_listing_as_sold() {
    with_contract(|env| {
        let (seller, buyer) = (10, 11);
        let asset = setup_payment_asset(env);
        setup_token(env, 1, seller);
        setup_listing(env, 1, seller, 1000, asset, 0);
        let _result = purchase_listing(env, buyer, 1).unwrap();
        let listing = get_listing(env, 1).unwrap();
        assert_eq!(listing.status, ListingStatus::Sold);
        assert_eq!(listing.buyer, Some(buyer));
        assert!(listing.sold_at.is_some());
    });
}

#[test]
fn purchase_fails_on_already_sold_listing() {
    with_contract(|env| {
        let (seller, buyer1, buyer2) = (10, 11, 12);
        let asset = setup_payment_asset(env);
        setup_token(env, 1, seller);
        setup_listing(env, 1, seller, 1000, asset, 0);
        let _result = purchase_listing(env, buyer1, 1).unwrap();
        assert_eq!(purchase_listing(env, buyer2, 1).unwrap_err(), Error::ListingNotActive);
    });
}

#[test]
fn purchase_emits_nft_sold_event() {
    with_contract(|env| {
        let (seller, buyer) = (10, 11);
        let asset = setup_payment_asset(env);
        setup_token(env, 1, seller);
        setup_listing(env, 1, seller, 1_000_000, asset, 0);
        let result = purchase_listing(env, buyer, 1).unwrap();
        assert_eq!(result.sale_price, 1_000_000);
        assert_eq!(result.seller, seller);
        assert_eq!(result.buyer, buyer);
        match env.events.last().unwrap() {
            ContractEvent::NftSold(e) => {
                assert_eq!(e.token_id, 1);
                assert_eq!(e.seller, seller);
                assert_eq!(e.buyer, buyer);
                assert_eq!(e.sale_amount, 1_000_000);
                assert_eq!(e.payment_asset, asset);
            },
            _ => panic!("expected a sale event"),
        }
    });
}

#[test]
fn purchase_emits_royalty_paid_events() {
    with_contract(|env| {
        let (seller, buyer, royalty_recipient) = (10, 11, 12);
        let asset = setup_payment_asset(env);
        setup_token(env, 1, seller);
        setup_listing(env, 1, seller, 1_000_000, asset, 0);
        setup_royalty(env, 1, royalty_recipient, 500);
        let result = purchase_listing(env, buyer, 1).unwrap();
        assert_eq!(result.royalty_payments.len(), 1);
        assert_eq!(result.royalty_payments[0].recipient, royalty_recipient);
        assert_eq!(env.events.len(), 2);
        match &env.events[0] {
            ContractEvent::RoyaltyPaid(e) => {
                assert_eq!(e.receiver, royalty_recipient);
                assert_eq!(e.payer, buyer);
                assert_eq!(e.amount, 50_000);
            },
            _ => panic!("expected a royalty event"),
        }
    });
}

#[test]
fn purchase_handles_multi_recipient_royalty() {
    with_contract(|env| {
        let (seller, buyer, recipient1, recipient2) = (10, 11, 12, 13);
        let asset = setup_payment_asset(env);
        setup_token(env, 1, seller);
        setup_listing(env, 1, seller, 1_000_000, asset, 0);
        set_royalty(
            env,
            1,
            Royalty {
                recipients: vec![
                    RoyaltyRecipient { recipient: recipient1, basis_points: 300 },
                    RoyaltyRecipient { recipient: recipient2, basis_points: 200 },
                ],
                asset_address: None,
            },
        );
        let result = purchase_listing(env, buyer, 1).unwrap();
        assert_eq!(result.total_royalty, 50_000);
        assert_eq!(result.royalty_payments.len(), 2);
        assert_eq!(result.royalty_payments[0].amount, 30_000);
        assert_eq!(result.royalty_payments[1].amount, 20_000);
    });
}

#[test]
fn purchase_fails_when_contract_paused() {
    with_contract(|env| {
        let (seller, buyer) = (10, 11);
        let asset = setup_payment_asset(env);
        setup_token(env, 1, seller);
        setup_listing(env, 1, seller, 1000, asset, 0);
        save_pause_state(env, true);
        assert_eq!(purchase_listing(env, buyer, 1).unwrap_err(), Error::ContractPaused);
    });
}

#[test]
fn purchase_with_minimum_price() {
    with_contract(|env| {
        let (seller, buyer) = (10, 11);
        let asset = setup_payment_asset(env);
        setup_token(env, 1, seller);
        setup_listing(env, 1, seller, 1, asset, 0);
        let result = purchase_listing(env, buyer, 1).unwrap();
        assert_eq!(result.sale_price, 1);
        assert_eq!(result.total_royalty, 0);
        assert_eq!(result.platform_fee, 0);
    });
}

#[test]
fn purchase_returns_correct_timestamp() {
    with_contract(|env| {
        env.set_timestamp(1_700_000_000);
        let (seller, buyer) = (10, 11);
        let asset = setup_payment_asset(env);
        setup_token(env, 1, seller);
        setup_listing(env, 1, seller, 1000, asset, 0);
        let result = purchase_listing(env, buyer, 1).unwrap();
        assert_eq!(result.timestamp, 1_700_000_000);
    });
}

#[test]
fn purchase_with_frozen_seller_token_fails() {
    with_contract(|env| {
        let (seller, buyer) = (10, 11);
        let asset = setup_payment_asset(env);
        setup_token(env, 1, seller);
        setup_listing(env, 1, seller, 1000, asset, 0);
        freeze_token(env, 1);
        assert_eq!(purchase_listing(env, buyer, 1).unwrap_err(), Error::Unauthorized);
    });
}

#[test]
fn purchase_preserves_seller_listing_history() {
    with_contract(|env| {
        let (seller, buyer) = (10, 11);
        let asset = setup_payment_asset(env);
        setup_token(env, 1, seller);
        setup_listing(env, 1, seller, 1000, asset, 0);
        let _result = purchase_listing(env, buyer, 1).unwrap();
        let listing = get_listing(env, 1).unwrap();
        assert_eq!(listing.seller, seller);
        assert_eq!(listing.price, 1000);
    });
}

#[test]
fn failed_purchase_leaves_storage_and_events_unchanged() {
    with_contract(|env| {
        let (seller, buyer, royalty_recipient) = (10, 11, 12);
        let asset = setup_payment_asset(env);
        setup_token(env, 1, seller);
        setup_listing(env, 1, seller, 10_000, asset, 0);
        setup_royalty(env, 1, royalty_recipient, 9_500);
        set_platform_fee(env, 1_000).unwrap();
        assert!(purchase_listing(env, buyer, 1).is_err());
        assert_eq!(get_owner(env, 1).unwrap(), seller);
        assert_eq!(get_listing(env, 1).unwrap().status, ListingStatus::Active);
        assert_eq!(get_royalty_history(env, 1).len(), 0);
        assert_eq!(env.events.len(), 0);
    });
}

#[test]
fn purchase_rounds_each_share_down() {
    with_contract(|env| {
        let (seller, buyer) = (10, 11);
        let asset = setup_payment_asset(env);
        setup_token(env, 1, seller);
        setup_listing(env, 1, seller, 999, asset, 0);
        set_royalty(
            env,
            1,
            Royalty {
                recipients: vec![
                    RoyaltyRecipient { recipient: 12, basis_points: 5 },
                    RoyaltyRecipient { recipient: 13, basis_points: 333 },
                ],
                asset_address: Some(77),
            },
        );
        let result = purchase_listing(env, buyer, 1).unwrap();
        // 999 * 338 / 10000 = 33; 999 * 5 / 10000 = 0 (no payment); 999 * 333 / 10000 = 33.
        assert_eq!(result.total_royalty, 33);
        assert_eq!(result.royalty_payments.len(), 1);
        assert_eq!(result.royalty_payments[0].recipient, 13);
        assert_eq!(result.royalty_payments[0].amount, 33);
        match &env.events[0] {
            ContractEvent::RoyaltyPaid(e) => assert_eq!(e.asset_address, Some(77)),
            _ => panic!("expected a royalty event"),
        }
    });
}

#[test]
fn purchase_fails_when_royalty_paused() {
    with_contract(|env| {
        let (seller, buyer) = (10, 11);
        let asset = setup_payment_asset(env);
        setup_token(env, 1, seller);
        setup_listing(env, 1, seller, 1000, asset, 0);
        env.instance.royalty_paused = true;
        assert_eq!(purchase_listing(env, buyer, 1).unwrap_err(), Error::RoyaltyPaused);
    });
}
