use clips_nft::config::Config;
use clips_nft::contract::{ClipCashNFT, ClipsNftContract, RoyaltyInfo};
use clips_nft::env::Env;
use clips_nft::events::{ContractEvent, RoyaltyPaidEvent};
use clips_nft::fees::get_royalty_history;
use clips_nft::types::{Error, Royalty, RoyaltyPayment, RoyaltyRecipient};

const ADMIN: u64 = 11;
const STRANGER: u64 = 12;

fn new_env() -> Env {
    Env::new(1_000, 1_000_000)
}

fn two_way_royalty() -> Royalty {
    Royalty {
        recipients: vec![
            RoyaltyRecipient { recipient: 21, basis_points: 500 },
            RoyaltyRecipient { recipient: 22, basis_points: 250 },
        ],
        asset_address: Some(31),
    }
}

fn initialized() -> Env {
    let mut env = new_env();
    ClipsNftContract::init(&mut env, ADMIN);
    env
}

// ── ClipCashNFT configuration ─────────────────────────────────────────────

#[test]
fn init_stores_the_default_configuration() {
    let mut env = new_env();
    ClipCashNFT::init(&mut env, ADMIN);
    let config = ClipCashNFT::get_config(&env);
    assert_eq!(config.admin, ADMIN);
    assert_eq!(config.max_royalty_bps, 500);
    assert_eq!(config.platform_fee_bps, 0);
    assert_eq!(config.mint_cooldown_secs, 0);
    assert_eq!(config.max_batch_mint_size, 100);
}

#[test]
fn only_the_admin_replaces_the_configuration() {
    let mut env = new_env();
    ClipCashNFT::init(&mut env, ADMIN);
    let config = Config {
        admin: ADMIN,
        max_royalty_bps: 1_000,
        mint_cooldown_secs: 60,
        platform_fee_bps: 250,
        max_batch_mint_size: 10,
    };
    assert_eq!(ClipCashNFT::set_config(&mut env, STRANGER, config), Err(Error::Unauthorized));
    assert_eq!(ClipCashNFT::get_config(&env).max_royalty_bps, 500);
    assert_eq!(ClipCashNFT::set_config(&mut env, ADMIN, config), Ok(()));
    assert_eq!(ClipCashNFT::get_config(&env), config);
}

#[test]
fn invalid_configuration_is_refused() {
    let mut env = new_env();
    ClipCashNFT::init(&mut env, ADMIN);
    let too_big_batch = Config {
        admin: ADMIN,
        max_royalty_bps: 500,
        mint_cooldown_secs: 0,
        platform_fee_bps: 0,
        max_batch_mint_size: 101,
    };
    assert_eq!(ClipCashNFT::set_config(&mut env, ADMIN, too_big_batch), Err(Error::InvalidConfig));
    let fee_too_high = Config { max_batch_mint_size: 5, platform_fee_bps: 10_001, ..too_big_batch };
    assert_eq!(ClipCashNFT::set_config(&mut env, ADMIN, fee_too_high), Err(Error::InvalidConfig));
}

// ── default royalty ───────────────────────────────────────────────────────

#[test]
fn default_royalty_is_five_percent_until_set() {
    let mut env = initialized();
    assert_eq!(ClipsNftContract::get_default_royalty_bps(&env), 500);
    assert_eq!(ClipsNftContract::set_default_royalty_bps(&mut env, ADMIN, 750), Ok(()));
    assert_eq!(ClipsNftContract::get_default_royalty_bps(&env), 750);
}

#[test]
fn default_royalty_needs_the_admin_and_a_valid_rate() {
    let mut env = new_env();
    assert_eq!(ClipsNftContract::set_default_royalty_bps(&mut env, ADMIN, 100), Err(Error::NotInitialized));
    ClipsNftContract::init(&mut env, ADMIN);
    assert_eq!(ClipsNftContract::set_default_royalty_bps(&mut env, STRANGER, 100), Err(Error::Unauthorized));
    assert_eq!(ClipsNftContract::set_default_royalty_bps(&mut env, ADMIN, 10_001), Err(Error::InvalidBasisPoints));
    assert_eq!(ClipsNftContract::get_default_royalty_bps(&env), 500);
}

// ── royalty configuration ─────────────────────────────────────────────────

#[test]
fn royalty_set_by_admin_is_read_back() {
    let mut env = initialized();
    assert_eq!(ClipsNftContract::set_royalty(&mut env, ADMIN, 1, two_way_royalty()), Ok(()));
    assert_eq!(ClipsNftContract::get_royalty(&env, 1), Ok(two_way_royalty()));
    assert_eq!(ClipsNftContract::get_royalty(&env, 2), Err(Error::TokenNotFound));
}

#[test]
fn royalty_changes_are_refused_to_strangers_and_over_the_cap() {
    let mut env = initialized();
    assert_eq!(ClipsNftContract::set_royalty(&mut env, STRANGER, 1, two_way_royalty()), Err(Error::Unauthorized));
    let too_much = Royalty {
        recipients: vec![
            RoyaltyRecipient { recipient: 21, basis_points: 9_000 },
            RoyaltyRecipient { recipient: 22, basis_points: 1_001 },
        ],
        asset_address: None,
    };
    assert_eq!(ClipsNftContract::set_royalty(&mut env, ADMIN, 1, too_much), Err(Error::InvalidBasisPoints));
    let nobody = Royalty { recipients: vec![], asset_address: None };
    assert_eq!(ClipsNftContract::set_royalty(&mut env, ADMIN, 1, nobody), Err(Error::InvalidBasisPoints));
    assert_eq!(ClipsNftContract::get_royalty(&env, 1), Err(Error::TokenNotFound));
}

// ── royalty quotes ────────────────────────────────────────────────────────

#[test]
fn royalty_info_quotes_the_total_rate_to_the_first_recipient() {
    let mut env = initialized();
    ClipsNftContract::set_royalty(&mut env, ADMIN, 1, two_way_royalty()).unwrap();
    assert_eq!(
        ClipsNftContract::royalty_info(&env, 1, 10_000),
        Ok(RoyaltyInfo { receiver: 21, royalty_amount: 750 })
    );
    // 7.5 % of 999 is 74.925, rounded down.
    assert_eq!(ClipsNftContract::royalty_info(&env, 1, 999), Ok(RoyaltyInfo { receiver: 21, royalty_amount: 74 }));
}

#[test]
fn royalty_info_errors() {
    let mut env = initialized();
    assert_eq!(ClipsNftContract::royalty_info(&env, 1, 10_000), Err(Error::TokenNotFound));
    ClipsNftContract::set_royalty(&mut env, ADMIN, 1, two_way_royalty()).unwrap();
    assert_eq!(ClipsNftContract::royalty_info(&env, 1, 0), Err(Error::InvalidSalePrice));
    assert_eq!(ClipsNftContract::royalty_info(&env, 1, i128::MAX), Err(Error::RoyaltyOverflow));
}

// ── royalty payments ──────────────────────────────────────────────────────

#[test]
fn pay_royalty_pays_each_recipient_and_records_it() {
    let mut env = initialized();
    ClipsNftContract::set_royalty(&mut env, ADMIN, 1, two_way_royalty()).unwrap();
    let result = ClipsNftContract::pay_royalty(&mut env, 41, 1, 20_000).ok().unwrap();
    assert_eq!(result.token_id, 1);
    assert_eq!(result.payer, 41);
    assert_eq!(result.sale_price, 20_000);
    assert_eq!(result.timestamp, 1_000);
    let expected = vec![
        RoyaltyPayment { token_id: 1, recipient: 21, amount: 1_000, timestamp: 1_000 },
        RoyaltyPayment { token_id: 1, recipient: 22, amount: 500, timestamp: 1_000 },
    ];
    assert_eq!(result.payments, expected);
    assert_eq!(get_royalty_history(&env, 1), expected);
    assert_eq!(
        env.events,
        vec![
            ContractEvent::RoyaltyPaid(RoyaltyPaidEvent {
                token_id: 1,
                payer: 41,
                receiver: 21,
                amount: 1_000,
                asset_address: Some(31),
                timestamp: 1_000,
            }),
            ContractEvent::RoyaltyPaid(RoyaltyPaidEvent {
                token_id: 1,
                payer: 41,
                receiver: 22,
                amount: 500,
                asset_address: Some(31),
                timestamp: 1_000,
            }),
        ]
    );
    assert_eq!(ClipsNftContract::get_cumulative_earnings(&env, 1), 1_500);
}

#[test]
fn cumulative_earnings_add_up_over_sales() {
    let mut env = initialized();
    assert_eq!(ClipsNftContract::get_cumulative_earnings(&env, 1), 0);
    ClipsNftContract::set_royalty(&mut env, ADMIN, 1, two_way_royalty()).unwrap();
    ClipsNftContract::pay_royalty(&mut env, 41, 1, 20_000).ok().unwrap();
    ClipsNftContract::pay_royalty(&mut env, 42, 1, 4_000).ok().unwrap();
    assert_eq!(ClipsNftContract::get_cumulative_earnings(&env, 1), 1_500 + 300);
    assert_eq!(get_royalty_history(&env, 1).len(), 4);
}

#[test]
fn zero_shares_are_not_recorded() {
    let mut env = initialized();
    ClipsNftContract::set_royalty(&mut env, ADMIN, 1, two_way_royalty()).unwrap();
    // 5 % of 10 is 0.5 and 2.5 % of 10 is 0.25: both round down to nothing.
    let result = ClipsNftContract::pay_royalty(&mut env, 41, 1, 10).ok().unwrap();
    assert!(result.payments.is_empty());
    assert!(env.events.is_empty());
    assert_eq!(ClipsNftContract::get_cumulative_earnings(&env, 1), 0);
}

#[test]
fn pay_royalty_errors_leave_nothing_behind() {
    let mut env = initialized();
    assert_eq!(ClipsNftContract::pay_royalty(&mut env, 41, 1, 1_000).err(), Some(Error::TokenNotFound));
    ClipsNftContract::set_royalty(&mut env, ADMIN, 1, two_way_royalty()).unwrap();
    assert_eq!(ClipsNftContract::pay_royalty(&mut env, 41, 1, 0).err(), Some(Error::InvalidSalePrice));
    assert_eq!(ClipsNftContract::pay_royalty(&mut env, 41, 1, i128::MAX).err(), Some(Error::RoyaltyOverflow));
    env.instance.royalty_paused = true;
    assert_eq!(ClipsNftContract::pay_royalty(&mut env, 41, 1, 1_000).err(), Some(Error::RoyaltyPaused));
    assert!(env.events.is_empty());
    assert!(get_royalty_history(&env, 1).is_empty());
}
