//! The checks a metadata update must pass: the token exists, the caller is
//! its owner, its creator or the admin, the token is not frozen, and the
//! one-time update policy allows it.

use vstd::prelude::*;

use crate::controls;
use crate::env::Env;
use crate::metadata_update_policy::{self, update_policy_check};
use crate::ownership;
use crate::types::{Address, Error, TokenId};

verus! {

broadcast use vstd::std_specs::hash::group_hash_axioms;

/// # Errors
/// [`Error::TokenNotFound`] when the token has no owner record.
pub fn check_token_exists(env: &Env, token_id: TokenId) -> (r: Result<(), Error>)
    ensures
        r == (if env.persistent.token_owners@.contains_key(token_id) { Ok(()) } else { Err(Error::TokenNotFound) }),
{
    if !ownership::token_exists(env, token_id) {
        return Err(Error::TokenNotFound);
    }
    Ok(())
}

/// Whether `caller` may update the token's metadata: its owner, its
/// creator, or the admin.
pub open spec fn may_update(env: Env, caller: Address, token_id: TokenId) -> bool {
    ||| env.persistent.token_owners@.contains_key(token_id) && env.persistent.token_owners@[token_id] == caller
    ||| env.persistent.creators@.contains_key(token_id) && env.persistent.creators@[token_id].creator == caller
    ||| env.instance.admin == Some(caller)
}

/// The caller must have authorized the invocation.
///
/// # Errors
/// [`Error::Unauthorized`] when the caller is not the owner, the creator or
/// the admin.
pub fn check_caller_authorized(env: &Env, caller: Address, token_id: TokenId) -> (r: Result<(), Error>)
    requires
        env.authorizes(caller),
    ensures
        r == (if may_update(*env, caller, token_id) { Ok(()) } else { Err(Error::Unauthorized) }),
{
    if let Ok(owner) = ownership::get_owner(env, token_id) {
        if caller == owner {
            return Ok(());
        }
    }
    if let Some(rec) = env.persistent.creators.get(&token_id) {
        if caller == rec.creator {
            return Ok(());
        }
    }
    if controls::is_admin(env, caller) {
        return Ok(());
    }
    Err(Error::Unauthorized)
}

/// # Errors
/// [`Error::Unauthorized`] when the token is frozen.
pub fn check_not_frozen(env: &Env, token_id: TokenId) -> (r: Result<(), Error>)
    ensures
        r == (if env.persistent.frozen@.contains(token_id) { Err(Error::Unauthorized) } else { Ok(()) }),
{
    if controls::is_frozen(env, token_id) {
        return Err(Error::Unauthorized);
    }
    Ok(())
}

/// # Errors
/// [`Error::MetadataAlreadyUpdated`] when the caller is not the admin and
/// the token's one update is used.
pub fn check_update_policy(env: &Env, caller: Address, token_id: TokenId) -> (r: Result<(), Error>)
    ensures
        r == update_policy_check(*env, token_id, caller),
{
    if controls::is_admin(env, caller) {
        return Ok(());
    }
    if metadata_update_policy::is_update_used(env, token_id) {
        return Err(Error::MetadataAlreadyUpdated);
    }
    Ok(())
}

/// Outcome of [`check_metadata_update`].
pub open spec fn metadata_update_check(env: Env, caller: Address, token_id: TokenId) -> Result<(), Error> {
    if !env.persistent.token_owners@.contains_key(token_id) {
        Err(Error::TokenNotFound)
    } else if !may_update(env, caller, token_id) {
        Err(Error::Unauthorized)
    } else if env.persistent.frozen@.contains(token_id) {
        Err(Error::Unauthorized)
    } else {
        update_policy_check(env, token_id, caller)
    }
}

/// All checks of a metadata update, in order. Once the token is found to
/// exist, the caller must have authorized the invocation.
pub fn check_metadata_update(env: &Env, caller: Address, token_id: TokenId) -> (r: Result<(), Error>)
    requires
        env.persistent.token_owners@.contains_key(token_id) ==> env.authorizes(caller),
    ensures
        r == metadata_update_check(*env, caller, token_id),
{
    check_token_exists(env, token_id)?;
    check_caller_authorized(env, caller, token_id)?;
    check_not_frozen(env, token_id)?;
    check_update_policy(env, caller, token_id)
}

} // verus!
