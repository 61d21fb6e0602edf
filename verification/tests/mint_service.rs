use clips_nft::env::Env;
use clips_nft::media_uri_storage::{get_preview_uri, get_thumbnail};
use clips_nft::mint_request::MintRequest;
use clips_nft::mint_service::{execute_mint, execute_mint_with_media};
use clips_nft::ownership::{get_token, get_wallet_tokens};
use clips_nft::token_records::{
    get_clip_id, get_creator, get_creator_display_name, get_creator_metadata, get_creator_portfolio,
    get_total_supply, next_token_id,
};
use clips_nft::types::{Error, Royalty, RoyaltyRecipient, TransactionStatus};

fn with_contract<F, R>(f: F) -> R
where
    F: FnOnce(&mut Env) -> R,
{
    let mut env = Env::new(0, 1_000_000);
    f(&mut env)
}

fn s(x: &str) -> Vec<u8> {
    x.as_bytes().to_vec()
}

fn royalty(recipient: u64, basis_points: u32) -> Royalty {
    Royalty { recipients: vec![RoyaltyRecipient { recipient, basis_points }], asset_address: None }
}

fn make_request(clip_id: u32) -> MintRequest {
    let owner = 10_000 + clip_id as u64;
    let royalty_recipient = 20_000 + clip_id as u64;
    MintRequest {
        clip_id,
        owner,
        creator: owner,
        metadata_uri: s(&format!("ipfs://QmClip{}", clip_id)),
        thumbnail_uri: None,
        preview_video_uri: None,
        royalty_info: royalty(royalty_recipient, 500),
        creator_address: None,
        creator_display_name: None,
    }
}

#[test]
fn first_mint_assigns_token_id_one() {
    with_contract(|env| {
        let req = make_request(42);
        let result = execute_mint(env, make_request(42)).expect("mint should succeed");
        assert_eq!(result.token_id, 1);
        assert_eq!(result.clip_id, 42);
        assert_eq!(result.owner, req.owner);
        assert_eq!(result.metadata_uri, req.metadata_uri);
        assert_eq!(result.status, TransactionStatus::Success);
    });
}

#[test]
fn mint_success_response_includes_timestamp() {
    with_contract(|env| {
        env.set_timestamp(1_700_000_555);
        let result = execute_mint(env, make_request(1)).unwrap();
        assert_eq!(result.mint_timestamp, 1_700_000_555);
        assert_eq!(result.status, TransactionStatus::Success);
    });
}

#[test]
fn sequential_mints_increment_token_id() {
    with_contract(|env| {
        let r1 = execute_mint(env, make_request(1)).unwrap();
        let r2 = execute_mint(env, make_request(2)).unwrap();
        let r3 = execute_mint(env, make_request(3)).unwrap();
        assert_eq!(r1.token_id, 1);
        assert_eq!(r2.token_id, 2);
        assert_eq!(r3.token_id, 3);
    });
}

#[test]
fn total_supply_increments() {
    with_contract(|env| {
        assert_eq!(get_total_supply(env), 0);
        execute_mint(env, make_request(10)).unwrap();
        assert_eq!(get_total_supply(env), 1);
        execute_mint(env, make_request(11)).unwrap();
        assert_eq!(get_total_supply(env), 2);
    });
}

#[test]
fn duplicate_clip_id_fails() {
    with_contract(|env| {
        execute_mint(env, make_request(99)).unwrap();
        let err = execute_mint(env, make_request(99)).err().unwrap();
        assert_eq!(err, Error::ClipAlreadyMinted);
    });
}

#[test]
fn empty_metadata_uri_fails() {
    let mut env = Env::new(0, 1_000_000);
    let owner = 101;
    let recipient = 102;
    let req = MintRequest {
        clip_id: 5,
        owner,
        creator: owner,
        metadata_uri: s(""),
        thumbnail_uri: None,
        preview_video_uri: None,
        royalty_info: royalty(recipient, 0),
        creator_address: None,
        creator_display_name: None,
    };
    let err = execute_mint(&mut env, req).err().expect("empty uri should fail");
    assert_eq!(err, Error::InvalidURI);
}

#[test]
fn mint_emits_event() {
    let mut env = Env::new(0, 1_000_000);
    let req = make_request(7);
    execute_mint(&mut env, req).ok().expect("mint ok");
    assert_eq!(env.events.len(), 1, "exactly one event should be emitted");
}

#[test]
fn token_storage_has_correct_data() {
    with_contract(|env| {
        let req = make_request(20);
        let owner = req.owner;
        let result = execute_mint(env, req).unwrap();
        let stored = get_token(env, result.token_id).unwrap();
        assert_eq!(stored.owner, owner);
        assert_eq!(stored.clip_id, 20);
    });
}

#[test]
fn media_uris_are_persisted() {
    with_contract(|env| {
        let req = make_request(30);
        let thumb = s("ipfs://thumb");
        let preview = s("ipfs://preview");
        let result = execute_mint_with_media(env, req, Some(thumb.clone()), Some(preview.clone())).unwrap();
        assert_eq!(get_thumbnail(env, result.token_id).unwrap(), thumb);
        assert_eq!(get_preview_uri(env, result.token_id).unwrap(), preview);
    });
}

#[test]
fn clip_id_mapping_is_recorded() {
    let mut env = Env::new(0, 1_000_000);
    let req = make_request(55);
    let clip_id = req.clip_id;

    let result = execute_mint(&mut env, req).ok().expect("mint ok");

    assert!(env.persistent.clip_to_token.contains_key(&clip_id));
    let stored_clip = get_clip_id(&env, result.token_id).expect("reverse mapping should exist");
    assert_eq!(stored_clip, clip_id);
}

#[test]
fn token_added_to_wallet_index() {
    let mut env = Env::new(0, 1_000_000);
    let req = make_request(60);
    let owner = req.owner;

    let result = execute_mint(&mut env, req).ok().expect("mint ok");

    let tokens = get_wallet_tokens(&env, owner);
    assert!(tokens.contains(&result.token_id), "token should be in the owner's wallet index");
}

#[test]
fn creator_metadata_defaults_to_owner() {
    let mut env = Env::new(0, 1_000_000);
    let req = make_request(70);
    let owner = req.owner;

    let result = execute_mint(&mut env, req).ok().expect("mint ok");

    let stored_creator = get_creator(&env, result.token_id).unwrap();
    assert_eq!(stored_creator, owner);

    let metadata = get_creator_metadata(&env, result.token_id).unwrap();
    assert_eq!(metadata.creator_address, owner);
    assert_eq!(metadata.display_name, None);
    assert!(!metadata.verified);
}

#[test]
fn creator_metadata_with_explicit_creator_and_name() {
    let mut env = Env::new(0, 1_000_000);
    let owner = 101;
    let creator = 102;
    let display_name = Some(s("ClipCreator"));
    let royalty_recipient = 103;

    let req = MintRequest {
        clip_id: 71,
        owner,
        creator: owner,
        metadata_uri: s("ipfs://QmExplicitCreator"),
        thumbnail_uri: None,
        preview_video_uri: None,
        royalty_info: royalty(royalty_recipient, 250),
        creator_address: Some(creator),
        creator_display_name: display_name.clone(),
    };

    let result = execute_mint(&mut env, req).ok().expect("mint ok");

    let metadata = get_creator_metadata(&env, result.token_id).unwrap();
    assert_eq!(metadata.creator_address, creator);
    assert_ne!(metadata.creator_address, owner);
    assert_eq!(metadata.display_name, display_name);
    assert!(!metadata.verified);

    let stored_name = get_creator_display_name(&env, result.token_id).unwrap();
    assert_eq!(stored_name, display_name);
}

#[test]
fn token_added_to_creator_portfolio() {
    let mut env = Env::new(0, 1_000_000);
    let creator = 101;
    let owner = 102;
    let royalty_recipient = 103;

    let req = MintRequest {
        clip_id: 72,
        owner,
        creator: owner,
        metadata_uri: s("ipfs://QmPortfolioTest"),
        thumbnail_uri: None,
        preview_video_uri: None,
        royalty_info: royalty(royalty_recipient, 500),
        creator_address: Some(creator),
        creator_display_name: None,
    };

    let result = execute_mint(&mut env, req).ok().expect("mint ok");

    let portfolio = get_creator_portfolio(&env, creator);
    assert!(portfolio.contains(&result.token_id));
    assert_eq!(portfolio.len(), 1);
}

#[test]
fn next_token_id_starts_at_one() {
    with_contract(|env| {
        assert_eq!(next_token_id(env), 1);
    });
}

#[test]
fn next_token_id_reads_existing_counter() {
    with_contract(|env| {
        env.instance.next_token_id = Some(5);
        assert_eq!(next_token_id(env), 6);
    });
}

#[test]
fn failed_mint_leaves_state_unchanged() {
    with_contract(|env| {
        execute_mint(env, make_request(99)).unwrap();
        let events_before = env.events.len();
        let supply_before = get_total_supply(env);
        assert_eq!(execute_mint(env, make_request(99)).err(), Some(Error::ClipAlreadyMinted));
        assert_eq!(env.events.len(), events_before);
        assert_eq!(get_total_supply(env), supply_before);
        assert_eq!(next_token_id(env), 2);
    });
}
