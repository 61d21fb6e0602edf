//! NFT metadata: record types, field validation, helpers, builders with JSON
//! serialization, and per-token metadata URI storage.

pub mod constants;
pub mod errors;
pub mod types;
pub mod validation;
pub mod helpers;
pub mod json;
pub mod metadata_builder;
pub mod storage;
pub mod validator;
