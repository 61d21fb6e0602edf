//! Building and publishing the contract's events.

use vstd::prelude::*;

use crate::bytes::{copy_bytes, copy_opt_bytes, opt_bytes};
use crate::env::Env;
use crate::events::{
    ContractEvent, ListingCancelledEvent, MetadataUpdatedEvent, MintEvent, NFTFrozenEvent, NFTMintedEvent,
    NftAddressEvent, NftListedEvent,
};
use crate::types::{Address, ListingId, TokenId};

verus! {

/// `after` is `before` with one event appended.
pub open spec fn one_appended(before: Seq<ContractEvent>, after: Seq<ContractEvent>) -> bool {
    &&& after.len() == before.len() + 1
    &&& after.take(before.len() as int) == before
}

/// Only the event log changed from `e1` to `e2`, by one event.
pub open spec fn published_one(e1: Env, e2: Env) -> bool {
    &&& one_appended(e1.events@, e2.events@)
    &&& e2.timestamp == e1.timestamp
    &&& e2.contract_address == e1.contract_address && e2.auth == e1.auth
    &&& e2.instance == e1.instance
    &&& e2.persistent == e1.persistent
}

/// Whether `m` records a metadata change with these values.
pub open spec fn metadata_updated_is(
    m: MetadataUpdatedEvent,
    token_id: TokenId,
    previous_uri: Seq<u8>,
    new_uri: Seq<u8>,
    updater: Address,
    timestamp: u64,
) -> bool {
    &&& m.token_id == token_id
    &&& m.previous_uri@ == previous_uri
    &&& m.new_uri@ == new_uri
    &&& m.updater == updater
    &&& m.timestamp == timestamp
}

/// The metadata-updated event for these values.
pub fn build_metadata_updated_event(
    env: &Env,
    token_id: TokenId,
    previous_uri: &Vec<u8>,
    new_uri: &Vec<u8>,
    updater: Address,
    timestamp: u64,
) -> (r: MetadataUpdatedEvent)
    ensures
        metadata_updated_is(r, token_id, previous_uri@, new_uri@, updater, timestamp),
{
    MetadataUpdatedEvent {
        token_id,
        previous_uri: copy_bytes(previous_uri),
        new_uri: copy_bytes(new_uri),
        updater,
        timestamp,
    }
}

/// Publish the metadata-updated event for these values.
pub fn emit_metadata_updated(
    env: &mut Env,
    token_id: TokenId,
    previous_uri: &Vec<u8>,
    new_uri: &Vec<u8>,
    updater: Address,
    timestamp: u64,
)
    ensures
        published_one(*old(env), *final(env)),
        final(env).events@.last() matches ContractEvent::MetadataUpdated(m)
            && metadata_updated_is(m, token_id, previous_uri@, new_uri@, updater, timestamp),
{
    let e = build_metadata_updated_event(env, token_id, previous_uri, new_uri, updater, timestamp);
    env.publish(ContractEvent::MetadataUpdated(e));
    assert(env.events@.take(old(env).events@.len() as int) =~= old(env).events@);
}

/// Whether `f` records a freeze with these values.
pub open spec fn nft_frozen_is(f: NFTFrozenEvent, token_id: TokenId, caller: Address, reason: Option<Seq<u8>>, timestamp: u64) -> bool {
    &&& f.token_id == token_id
    &&& f.caller == caller
    &&& opt_bytes(f.reason) == reason
    &&& f.timestamp == timestamp
}

/// The freeze event for these values.
pub fn build_nft_frozen_event(env: &Env, token_id: TokenId, caller: Address, reason: &Option<Vec<u8>>, timestamp: u64) -> (r: NFTFrozenEvent)
    ensures
        nft_frozen_is(r, token_id, caller, opt_bytes(*reason), timestamp),
{
    NFTFrozenEvent { token_id, caller, reason: copy_opt_bytes(reason), timestamp }
}

/// Publish the freeze event for these values.
pub fn emit_nft_frozen(env: &mut Env, token_id: TokenId, caller: Address, reason: &Option<Vec<u8>>, timestamp: u64)
    ensures
        published_one(*old(env), *final(env)),
        final(env).events@.last() matches ContractEvent::NftFrozen(f) && nft_frozen_is(f, token_id, caller, opt_bytes(*reason), timestamp),
{
    let e = build_nft_frozen_event(env, token_id, caller, reason, timestamp);
    env.publish(ContractEvent::NftFrozen(e));
    assert(env.events@.take(old(env).events@.len() as int) =~= old(env).events@);
}

/// Publish the legacy mint event.
pub fn emit_mint(env: &mut Env, to: Address, clip_id: u32, token_id: TokenId, metadata_uri: &Vec<u8>)
    ensures
        published_one(*old(env), *final(env)),
        final(env).events@.last() matches ContractEvent::Mint(m) && m.to == to && m.clip_id == clip_id
            && m.token_id == token_id && m.metadata_uri@ == metadata_uri@,
{
    env.publish(ContractEvent::Mint(MintEvent { to, clip_id, token_id, metadata_uri: copy_bytes(metadata_uri) }));
    assert(env.events@.take(old(env).events@.len() as int) =~= old(env).events@);
}

/// Whether `m` records a mint with these values.
pub open spec fn nft_minted_is(
    m: NFTMintedEvent,
    token_id: TokenId,
    clip_id: u32,
    creator: Address,
    owner: Address,
    metadata_uri: Seq<u8>,
    timestamp: u64,
) -> bool {
    &&& m.token_id == token_id
    &&& m.clip_id == clip_id
    &&& m.creator == creator
    &&& m.owner == owner
    &&& m.metadata_uri@ == metadata_uri
    &&& m.timestamp == timestamp
}

/// The NFT-minted event for these values.
pub fn build_nft_minted_event(
    env: &Env,
    token_id: TokenId,
    clip_id: u32,
    creator: Address,
    owner: Address,
    metadata_uri: &Vec<u8>,
    timestamp: u64,
) -> (r: NFTMintedEvent)
    ensures
        nft_minted_is(r, token_id, clip_id, creator, owner, metadata_uri@, timestamp),
{
    NFTMintedEvent { token_id, clip_id, creator, owner, metadata_uri: copy_bytes(metadata_uri), timestamp }
}

/// Publish the NFT-minted event for these values.
pub fn emit_nft_minted(
    env: &mut Env,
    token_id: TokenId,
    clip_id: u32,
    creator: Address,
    owner: Address,
    metadata_uri: &Vec<u8>,
    timestamp: u64,
)
    ensures
        published_one(*old(env), *final(env)),
        final(env).events@.last() matches ContractEvent::NftMinted(m)
            && nft_minted_is(m, token_id, clip_id, creator, owner, metadata_uri@, timestamp),
{
    let e = build_nft_minted_event(env, token_id, clip_id, creator, owner, metadata_uri, timestamp);
    env.publish(ContractEvent::NftMinted(e));
    assert(env.events@.take(old(env).events@.len() as int) =~= old(env).events@);
}

/// Publish the NFT-listed event.
pub fn emit_nft_listed(
    env: &mut Env,
    listing_id: ListingId,
    token_id: TokenId,
    seller: Address,
    price: i128,
    asset: Address,
    timestamp: u64,
)
    ensures
        published_one(*old(env), *final(env)),
        final(env).events@.last() == ContractEvent::NftListed(NftListedEvent { listing_id, token_id, seller, price, asset, timestamp }),
{
    env.publish(ContractEvent::NftListed(NftListedEvent { listing_id, token_id, seller, price, asset, timestamp }));
    assert(env.events@.take(old(env).events@.len() as int) =~= old(env).events@);
}

/// Publish the listing-cancelled event.
pub fn emit_listing_cancelled(env: &mut Env, listing_id: ListingId, token_id: TokenId, seller: Address, timestamp: u64)
    ensures
        published_one(*old(env), *final(env)),
        final(env).events@.last() == ContractEvent::ListingCancelled(ListingCancelledEvent { listing_id, token_id, seller, timestamp }),
{
    env.publish(ContractEvent::ListingCancelled(ListingCancelledEvent { listing_id, token_id, seller, timestamp }));
    assert(env.events@.take(old(env).events@.len() as int) =~= old(env).events@);
}

/// Publish an event naming a token and two accounts under `topic`.
pub fn emit_nft_address_event(
    env: &mut Env,
    token_id: TokenId,
    topic: &Vec<u8>,
    sender: Address,
    recipient: Address,
    timestamp: u64,
)
    ensures
        published_one(*old(env), *final(env)),
        final(env).events@.last() matches ContractEvent::NftAddress(a) && a.topic@ == topic@ && a.token_id == token_id
            && a.sender == sender && a.recipient == recipient && a.timestamp == timestamp,
{
    env.publish(ContractEvent::NftAddress(NftAddressEvent { topic: copy_bytes(topic), token_id, sender, recipient, timestamp }));
    assert(env.events@.take(old(env).events@.len() as int) =~= old(env).events@);
}

} // verus!
