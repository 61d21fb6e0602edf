//! Event payloads published by the contract, and the event log entry that
//! wraps each of them.

use vstd::prelude::*;

use crate::migration::MigrationEvent;
use crate::types::{Address, ListingId, TokenId};

verus! {

/// Legacy `"mint"` event.
#[derive(Clone, Debug, PartialEq, Eq)]
pub struct MintEvent {
    pub to: Address,
    pub clip_id: u32,
    pub token_id: TokenId,
    pub metadata_uri: Vec<u8>,
}

/// `"nft_mntd"` event: a new NFT exists on-chain.
#[derive(Clone, Debug, PartialEq, Eq)]
pub struct NFTMintedEvent {
    pub token_id: TokenId,
    pub clip_id: u32,
    pub creator: Address,
    pub owner: Address,
    pub metadata_uri: Vec<u8>,
    pub timestamp: u64,
}

/// `"meta_upd"` event: a token's metadata reference changed.
#[derive(Clone, Debug, PartialEq, Eq)]
pub struct MetadataUpdatedEvent {
    pub token_id: TokenId,
    pub previous_uri: Vec<u8>,
    pub new_uri: Vec<u8>,
    pub updater: Address,
    pub timestamp: u64,
}

/// `"nft_froz"` event: a token was frozen.
#[derive(Clone, Debug, PartialEq, Eq)]
pub struct NFTFrozenEvent {
    pub token_id: TokenId,
    pub caller: Address,
    pub reason: Option<Vec<u8>>,
    pub timestamp: u64,
}

/// `"nft_list"` event: an NFT was listed for sale.
#[derive(Clone, Copy, Debug, PartialEq, Eq, Structural)]
pub struct NftListedEvent {
    pub listing_id: ListingId,
    pub token_id: TokenId,
    pub seller: Address,
    pub price: i128,
    pub asset: Address,
    pub timestamp: u64,
}

/// `"list_cncl"` event: a listing identified by its listing ID was cancelled.
#[derive(Clone, Copy, Debug, PartialEq, Eq, Structural)]
pub struct ListingCancelledEvent {
    pub listing_id: ListingId,
    pub token_id: TokenId,
    pub seller: Address,
    pub timestamp: u64,
}

/// A marketplace listing was cancelled by `cancelled_by` (the seller, an
/// operator of the seller, or the admin).
#[derive(Clone, Copy, Debug, PartialEq, Eq, Structural)]
pub struct MarketListingCancelledEvent {
    pub token_id: TokenId,
    pub seller: Address,
    pub cancelled_by: Address,
    pub timestamp: u64,
}

/// `"royalty_paid"` event: one royalty recipient was paid on a sale.
#[derive(Clone, Copy, Debug, PartialEq, Eq, Structural)]
pub struct RoyaltyPaidEvent {
    pub token_id: TokenId,
    pub payer: Address,
    pub receiver: Address,
    pub amount: i128,
    pub asset_address: Option<Address>,
    pub timestamp: u64,
}

/// `"nft_sold"` event: a listed NFT was bought.
#[derive(Clone, Copy, Debug, PartialEq, Eq, Structural)]
pub struct NftSoldEvent {
    pub token_id: TokenId,
    pub seller: Address,
    pub buyer: Address,
    pub sale_amount: i128,
    pub payment_asset: Address,
    pub timestamp: u64,
}

/// `"nft_event"` event naming two accounts, under a specific topic.
#[derive(Clone, Debug, PartialEq, Eq)]
pub struct NftAddressEvent {
    pub topic: Vec<u8>,
    pub token_id: TokenId,
    pub sender: Address,
    pub recipient: Address,
    pub timestamp: u64,
}

/// One entry of the contract's event log.
#[derive(Clone, Debug, PartialEq, Eq)]
pub enum ContractEvent {
    Mint(MintEvent),
    NftMinted(NFTMintedEvent),
    MetadataUpdated(MetadataUpdatedEvent),
    NftFrozen(NFTFrozenEvent),
    NftListed(NftListedEvent),
    ListingCancelled(ListingCancelledEvent),
    MarketListingCancelled(MarketListingCancelledEvent),
    RoyaltyPaid(RoyaltyPaidEvent),
    NftSold(NftSoldEvent),
    Migration(MigrationEvent),
    NftAddress(NftAddressEvent),
}

} // verus!
