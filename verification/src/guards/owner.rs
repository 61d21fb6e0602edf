//! Checks that a caller owns a token.

use vstd::prelude::*;

use crate::env::Env;
use crate::ownership;
use crate::types::{Address, Error, TokenId};

verus! {

/// The owner of `token_id`.
///
/// # Errors
/// [`Error::TokenNotFound`] when the token has no owner record.
pub fn get_owner_for_token(env: &Env, token_id: TokenId) -> (r: Result<Address, Error>)
    ensures
        r == (if env.persistent.token_owners@.contains_key(token_id) {
            Ok(env.persistent.token_owners@[token_id])
        } else {
            Err(Error::TokenNotFound)
        }),
{
    ownership::get_owner(env, token_id)
}

/// Whether `caller` owns `token_id` (false when it has no owner).
pub fn check_caller_is_owner(env: &Env, token_id: TokenId, caller: Address) -> (r: bool)
    ensures
        r == (env.persistent.token_owners@.contains_key(token_id) && env.persistent.token_owners@[token_id] == caller),
{
    match ownership::get_owner(env, token_id) {
        Ok(o) => o == caller,
        Err(_) => false,
    }
}

/// Require `caller` to own `token_id`.
///
/// # Errors
/// [`Error::TokenNotFound`] when the token has no owner,
/// [`Error::Unauthorized`] when someone else owns it.
pub fn require_owner(env: &Env, token_id: TokenId, caller: Address) -> (r: Result<(), Error>)
    ensures
        r == (if !env.persistent.token_owners@.contains_key(token_id) {
            Err(Error::TokenNotFound)
        } else if env.persistent.token_owners@[token_id] != caller {
            Err(Error::Unauthorized)
        } else {
            Ok(())
        }),
{
    let owner = ownership::get_owner(env, token_id)?;
    if owner != caller {
        return Err(Error::Unauthorized);
    }
    Ok(())
}

} // verus!
