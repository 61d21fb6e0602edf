//! Payment replay checks. Every payment is currently accepted as new.

use vstd::prelude::*;

use crate::env::Env;
use crate::types::{Address, Error, TokenId};

verus! {

/// Check a payment for replay; every payment passes.
pub fn detect_replay_payment(env: &Env, payer: Address, token_id: TokenId, sale_price: i128) -> (r: Result<(), Error>)
    ensures
        r is Ok,
{
    Ok(())
}

/// Whether a payment was already processed; never.
pub fn is_payment_already_processed(env: &Env, payer: Address, token_id: TokenId, sale_price: i128) -> (r: bool)
    ensures
        !r,
{
    false
}

/// Record a payment as processed; nothing is stored.
pub fn record_payment_processed(env: &Env, payer: Address, token_id: TokenId, sale_price: i128) -> (r: Result<(), Error>)
    ensures
        r is Ok,
{
    Ok(())
}

} // verus!
