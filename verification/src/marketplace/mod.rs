//! NFT marketplace: fixed-price listings, buy offers, and purchases that
//! settle royalties and platform fees and transfer the NFT.

pub mod types;
pub mod offer_storage;
pub mod listing_storage;
pub mod purchase_state_guard;
pub mod listing_validator;
pub mod purchase_validator;
pub mod purchase;
