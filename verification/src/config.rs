//! Contract-wide configuration record.

use vstd::prelude::*;

use crate::types::{Address, Error, MAX_ROYALTY_BPS};

verus! {

/// Hard upper bound on the number of mints in one batch.
pub const MAX_BATCH_MINT_SIZE: u32 = 100;

/// Smallest accepted batch.
pub const MIN_BATCH_MINT_SIZE: u32 = 1;

/// Contract configuration.
#[derive(Clone, Copy, Debug, PartialEq, Eq, Structural)]
pub struct Config {
    pub admin: Address,
    /// Ceiling for any token's royalty, in basis points.
    pub max_royalty_bps: u32,
    /// Minimum delay between mints of one creator, in seconds.
    pub mint_cooldown_secs: u64,
    /// Platform fee on sales, in basis points.
    pub platform_fee_bps: u32,
    /// Largest accepted mint batch.
    pub max_batch_mint_size: u32,
}

/// A configuration that the contract accepts.
pub open spec fn config_valid(c: Config) -> bool {
    &&& c.max_royalty_bps <= MAX_ROYALTY_BPS
    &&& c.platform_fee_bps <= MAX_ROYALTY_BPS
    &&& MIN_BATCH_MINT_SIZE <= c.max_batch_mint_size <= MAX_BATCH_MINT_SIZE
}

/// Validate a configuration.
///
/// # Errors
/// [`Error::InvalidConfig`] when a basis-point field exceeds 10 000 or the
/// batch limit lies outside `1..=100`.
pub fn validate_config(config: &Config) -> (r: Result<(), Error>)
    ensures
        r is Ok <==> config_valid(*config),
        r is Err ==> r == Err::<(), Error>(Error::InvalidConfig),
{
    if config.max_royalty_bps > MAX_ROYALTY_BPS || config.platform_fee_bps > MAX_ROYALTY_BPS
        || config.max_batch_mint_size < MIN_BATCH_MINT_SIZE
        || config.max_batch_mint_size > MAX_BATCH_MINT_SIZE {
        return Err(Error::InvalidConfig);
    }
    Ok(())
}

} // verus!
