//! Checks that a token exists.

use vstd::prelude::*;

use crate::env::Env;
use crate::ownership;
use crate::types::{TokenId, TokenNotFoundError};

verus! {

/// Whether `token_id` has an owner record.
pub fn check_token_exists(env: &Env, token_id: TokenId) -> (r: bool)
    ensures
        r == env.persistent.token_owners@.contains_key(token_id),
{
    ownership::token_exists(env, token_id)
}

/// Require `token_id` to exist.
///
/// # Errors
/// [`TokenNotFoundError::TokenNotFound`] when it has no owner record.
pub fn require_token_exists(env: &Env, token_id: TokenId) -> (r: Result<(), TokenNotFoundError>)
    ensures
        r == (if env.persistent.token_owners@.contains_key(token_id) {
            Ok(())
        } else {
            Err(TokenNotFoundError::TokenNotFound)
        }),
{
    if check_token_exists(env, token_id) {
        Ok(())
    } else {
        Err(TokenNotFoundError::TokenNotFound)
    }
}

} // verus!
