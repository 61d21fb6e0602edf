//! Mint requests: one clip to mint as an NFT, or a batch of them.

use vstd::prelude::*;

use crate::config::{Config, MAX_BATCH_MINT_SIZE, MIN_BATCH_MINT_SIZE};
use crate::env::Env;
use crate::types::{Address, Error, Royalty};

verus! {

/// A request to mint one clip as an NFT.
pub struct MintRequest {
    pub clip_id: u32,
    pub owner: Address,
    pub creator: Address,
    pub metadata_uri: Vec<u8>,
    pub thumbnail_uri: Option<Vec<u8>>,
    pub preview_video_uri: Option<Vec<u8>>,
    pub royalty_info: Royalty,
    /// Creator to attribute the token to; the owner when absent.
    pub creator_address: Option<Address>,
    pub creator_display_name: Option<Vec<u8>>,
}

/// A batch of mint requests, processed all-or-nothing.
pub struct BatchMintRequest {
    pub requests: Vec<MintRequest>,
}

/// Whether a batch of `len` requests fits the limit `max`.
pub open spec fn batch_size_ok(len: int, max: int) -> bool {
    MIN_BATCH_MINT_SIZE <= len <= max
}

/// The batch limit in force: the configured one, or the default.
pub open spec fn batch_limit(env: Env) -> u32 {
    match env.instance.config {
        Some(c) => c.max_batch_mint_size,
        None => MAX_BATCH_MINT_SIZE,
    }
}

impl BatchMintRequest {
    /// Check the number of requests against the configuration's limit.
    ///
    /// # Errors
    /// [`Error::InvalidConfig`] when the batch is empty or larger than the
    /// limit.
    pub fn validate_batch_size(&self, config: &Config) -> (r: Result<(), Error>)
        ensures
            r == (if batch_size_ok(self.requests@.len() as int, config.max_batch_mint_size as int) {
                Ok(())
            } else {
                Err(Error::InvalidConfig)
            }),
    {
        let len = self.requests.len();
        if len < MIN_BATCH_MINT_SIZE as usize || len > config.max_batch_mint_size as usize {
            return Err(Error::InvalidConfig);
        }
        Ok(())
    }

    /// Check the number of requests against the stored configuration's
    /// limit, or the default limit when none is stored.
    ///
    /// # Errors
    /// [`Error::InvalidConfig`] when the batch is empty or too large.
    pub fn validate_against_env(&self, env: &Env) -> (r: Result<(), Error>)
        ensures
            r == (if batch_size_ok(self.requests@.len() as int, batch_limit(*env) as int) {
                Ok(())
            } else {
                Err(Error::InvalidConfig)
            }),
    {
        let max: u32 = match &env.instance.config {
            Some(c) => c.max_batch_mint_size,
            None => MAX_BATCH_MINT_SIZE,
        };
        let len = self.requests.len();
        if len < MIN_BATCH_MINT_SIZE as usize || len > max as usize {
            return Err(Error::InvalidConfig);
        }
        Ok(())
    }
}

} // verus!
