//! Marketplace data types: listings, offers, purchase requests and results.

use vstd::prelude::*;

use crate::types::{Address, ListingId, RoyaltyPayment, TokenId};

verus! {

/// Status of a marketplace listing.
#[derive(Clone, Copy, Debug, PartialEq, Eq, Structural)]
pub enum ListingStatus {
    /// Active and accepting purchases.
    Active,
    /// Bought.
    Sold,
    /// Cancelled by the seller (or an operator, or the admin).
    Cancelled,
}

/// A fixed-price NFT listing.
#[derive(Clone, Copy, Debug, PartialEq, Eq, Structural)]
pub struct Listing {
    pub token_id: TokenId,
    pub seller: Address,
    /// Asking price in the payment asset's smallest unit.
    pub price: i128,
    pub payment_asset: Address,
    /// Ledger timestamp after which the listing expires; `0` means never.
    pub expires_at: u64,
    pub status: ListingStatus,
    pub created_at: u64,
    /// Set when the listing is sold.
    pub buyer: Option<Address>,
    /// Set when the listing is sold.
    pub sold_at: Option<u64>,
}

/// Status of a marketplace offer.
#[derive(Clone, Copy, Debug, PartialEq, Eq, Structural)]
pub enum OfferStatus {
    Active,
    Accepted,
    Cancelled,
}

/// A binding buy offer for an NFT.
#[derive(Clone, Copy, Debug, PartialEq, Eq, Structural)]
pub struct Offer {
    pub offer_id: u64,
    pub token_id: TokenId,
    pub buyer: Address,
    pub price: i128,
    pub payment_asset: Address,
    /// Ledger timestamp after which the offer expires; `0` means never.
    pub expires_at: u64,
    pub status: OfferStatus,
    pub created_at: u64,
}

/// A buyer's request to purchase a listing.
#[derive(Clone, Copy, Debug, PartialEq, Eq, Structural)]
pub struct PurchaseRequest {
    pub listing_id: ListingId,
    pub buyer: Address,
    pub payment_asset: Address,
    /// The most the buyer is willing to pay.
    pub max_price: i128,
}

/// Breakdown of a completed purchase.
#[derive(Clone, Debug, PartialEq, Eq)]
pub struct PurchaseResult {
    pub token_id: TokenId,
    pub seller: Address,
    pub buyer: Address,
    pub sale_price: i128,
    pub platform_fee: i128,
    pub total_royalty: i128,
    pub royalty_payments: Vec<RoyaltyPayment>,
    pub timestamp: u64,
}

/// Whether a listing with expiration `expires_at` has expired at `now`.
pub open spec fn expired(expires_at: u64, now: u64) -> bool {
    expires_at > 0 && expires_at <= now
}

} // verus!
