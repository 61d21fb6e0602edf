//! A request to list an NFT, as stored by the simple listing store.

use vstd::prelude::*;

use crate::types::{Address, ListingId, TokenId};

verus! {

/// Describes an NFT marketplace listing.
#[derive(Clone, Copy, Debug, PartialEq, Eq, Structural)]
pub struct ListingRequest {
    /// Assigned when the listing is created.
    pub listing_id: ListingId,
    pub token_id: TokenId,
    pub price: i128,
    pub payment_asset: Address,
    pub expiration: u64,
    pub seller: Address,
}

} // verus!
