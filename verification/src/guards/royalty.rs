//! Royalty checks. Every recipient, token state and rate is currently
//! accepted.

use vstd::prelude::*;

use crate::env::Env;
use crate::types::{Address, Error, TokenId};

verus! {

/// Check a royalty recipient; every address passes.
pub fn validate_royalty_recipient(env: &Env, recipient: Address) -> (r: Result<(), Error>)
    ensures
        r is Ok,
{
    Ok(())
}

/// Check a token's royalty state; every token passes.
pub fn validate_royalty_state(env: &Env, token_id: TokenId) -> (r: Result<(), Error>)
    ensures
        r is Ok,
{
    Ok(())
}

/// Check a royalty rate against the maximum; every rate passes.
pub fn validate_royalty_within_maximum(env: &Env, bps: u32) -> (r: Result<(), Error>)
    ensures
        r is Ok,
{
    Ok(())
}

} // verus!
