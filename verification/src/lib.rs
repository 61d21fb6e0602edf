//! ClipCash NFT contract logic: guards, metadata rules, royalty arithmetic,
//! marketplace listings and offers, and the mint pipeline, over a verified
//! model of the contract's ledger state.

pub mod types;
pub mod guard_result;
pub mod guard_validator;
pub mod safe_math;
pub mod net_seller_amount;
pub mod bytes;
pub mod config;
pub mod env;
pub mod events;
pub mod listing_request;
pub mod marketplace;
pub mod migration;
pub mod metadata;
pub mod social_platform;
pub mod ownership;
pub mod controls;
pub mod fees;
pub mod metadata_uri_builder;
pub mod token_records;
pub mod mint_request;
pub mod mint_validator;
pub mod mint_service;
pub mod metadata_size;
pub mod metadata_uri_validator;
pub mod metadata_validator;
pub mod guards;
pub mod metadata_manager;
pub mod nft_existence_guard;
pub mod maximum_royalty;
pub mod init_guard;
pub mod media_uri_storage;
pub mod uri_index;
pub mod mint_metadata_link;
pub mod mint_metadata_uri;
pub mod nft_collection;
pub mod minter_role_storage;
pub mod mint_authorization;
pub mod metadata_update_policy;
pub mod event_emitters;
pub mod metadata_update_guard;
pub mod listing_id_generator;
pub mod listing_storage;
pub mod royalty_setup;
pub mod contract;
pub mod ipfs_metadata_generator;
