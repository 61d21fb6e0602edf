//! Who may mint: the admin and approved minters.

use vstd::prelude::*;

use crate::env::Env;
use crate::minter_role_storage::{self, only_minters_changed};
use crate::types::{Address, Error};

verus! {

/// Outcome of [`require_mint_auth`].
pub open spec fn mint_auth_check(env: Env, caller: Address) -> Result<(), Error> {
    match env.instance.admin {
        None => Err(Error::NotInitialized),
        Some(a) => if a == caller || env.persistent.approved_minters@.contains(caller) {
            Ok(())
        } else {
            Err(Error::UnauthorizedMinter)
        },
    }
}

/// Whether `address` is the admin.
///
/// # Errors
/// [`Error::NotInitialized`] when no admin is stored.
fn is_contract_owner(env: &Env, address: Address) -> (r: Result<bool, Error>)
    ensures
        r == (match env.instance.admin {
            Some(a) => Ok(a == address),
            None => Err(Error::NotInitialized),
        }),
{
    match env.instance.admin {
        Some(a) => Ok(a == address),
        None => Err(Error::NotInitialized),
    }
}

/// Require `caller` to be allowed to mint: the admin, or an approved
/// minter. A caller who is allowed must have authorized the invocation.
///
/// # Errors
/// [`Error::NotInitialized`] when no admin is stored,
/// [`Error::UnauthorizedMinter`] when the caller is neither.
pub fn require_mint_auth(env: &Env, caller: Address) -> (r: Result<(), Error>)
    requires
        mint_auth_check(*env, caller) is Ok ==> env.authorizes(caller),
    ensures
        r == mint_auth_check(*env, caller),
{
    if is_contract_owner(env, caller)? {
        return Ok(());
    }
    if minter_role_storage::is_approved_minter(env, caller) {
        return Ok(());
    }
    Err(Error::UnauthorizedMinter)
}

/// Approve `minter`.
pub fn set_approved_minter(env: &mut Env, minter: Address)
    ensures
        final(env).persistent.approved_minters@ == old(env).persistent.approved_minters@.insert(minter),
        only_minters_changed(*old(env), *final(env)),
{
    minter_role_storage::add_approved_minter(env, minter);
}

/// Withdraw `minter`'s approval.
pub fn remove_approved_minter(env: &mut Env, minter: Address)
    ensures
        final(env).persistent.approved_minters@ == old(env).persistent.approved_minters@.remove(minter),
        only_minters_changed(*old(env), *final(env)),
{
    minter_role_storage::remove_approved_minter(env, minter);
}

/// Whether `address` is an approved minter.
pub fn is_minter(env: &Env, address: Address) -> (r: bool)
    ensures
        r == env.persistent.approved_minters@.contains(address),
{
    minter_role_storage::is_approved_minter(env, address)
}

/// Approving a minter lets it mint once the contract has an admin, and
/// withdrawing the approval takes that away from anyone but the admin.
pub proof fn lemma_minter_approval(e0: Env, e1: Env, e2: Env, minter: Address)
    requires
        e0.instance.admin is Some,
        e1.instance == e0.instance,
        e1.persistent.approved_minters@ == e0.persistent.approved_minters@.insert(minter),
        e2.instance == e1.instance,
        e2.persistent.approved_minters@ == e1.persistent.approved_minters@.remove(minter),
    ensures
        mint_auth_check(e1, minter) is Ok,
        e0.instance.admin != Some(minter) ==> mint_auth_check(e2, minter) == Err::<(), Error>(Error::UnauthorizedMinter),
{
}

} // verus!
