//! Checks that a caller is the contract admin.

use vstd::prelude::*;

use crate::env::Env;
use crate::types::{Address, Error};

verus! {

/// The configured admin.
///
/// # Errors
/// [`Error::NotInitialized`] when no admin is stored.
pub fn get_configured_admin(env: &Env) -> (r: Result<Address, Error>)
    ensures
        r == (match env.instance.admin {
            Some(a) => Ok(a),
            None => Err(Error::NotInitialized),
        }),
{
    match env.instance.admin {
        Some(a) => Ok(a),
        None => Err(Error::NotInitialized),
    }
}

/// Whether `caller` is the configured admin (false when none is stored).
pub fn check_caller_is_admin(env: &Env, caller: Address) -> (r: bool)
    ensures
        r == (env.instance.admin == Some(caller)),
{
    match env.instance.admin {
        Some(a) => a == caller,
        None => false,
    }
}

/// Require `caller` to be the configured admin.
///
/// # Errors
/// [`Error::NotInitialized`] when no admin is stored, [`Error::Unauthorized`]
/// when `caller` is not the admin.
pub fn require_admin(env: &Env, caller: Address) -> (r: Result<(), Error>)
    ensures
        r == (match env.instance.admin {
            Some(a) => if a == caller { Ok(()) } else { Err(Error::Unauthorized) },
            None => Err(Error::NotInitialized),
        }),
{
    let admin = get_configured_admin(env)?;
    if admin != caller {
        return Err(Error::Unauthorized);
    }
    Ok(())
}

} // verus!
