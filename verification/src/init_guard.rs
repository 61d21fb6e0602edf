//! One-time initialization: the contract counts as initialized once an
//! admin is stored.

use vstd::prelude::*;

use crate::env::{Env, InstanceStorage};
use crate::fees::only_instance_changed;
use crate::types::{Address, Error};

verus! {

/// Whether an admin is stored.
pub fn is_initialized(env: &Env) -> (r: bool)
    ensures
        r == env.instance.admin is Some,
{
    env.instance.admin.is_some()
}

/// Outcome of [`require_not_initialized`].
pub open spec fn not_initialized_check(env: Env) -> Result<(), Error> {
    if env.instance.admin is Some { Err(Error::AlreadyInitialized) } else { Ok(()) }
}

/// # Errors
/// [`Error::AlreadyInitialized`] when an admin is stored.
pub fn require_not_initialized(env: &Env) -> (r: Result<(), Error>)
    ensures
        r == not_initialized_check(*env),
{
    if is_initialized(env) {
        return Err(Error::AlreadyInitialized);
    }
    Ok(())
}

/// # Errors
/// [`Error::NotInitialized`] when no admin is stored.
pub fn require_initialized(env: &Env) -> (r: Result<(), Error>)
    ensures
        r == (if env.instance.admin is None { Err(Error::NotInitialized) } else { Ok(()) }),
{
    if !is_initialized(env) {
        return Err(Error::NotInitialized);
    }
    Ok(())
}

/// Run `init` and store `admin`, unless the contract is already
/// initialized. The admin is stored only when `init` succeeds.
///
/// # Errors
/// [`Error::AlreadyInitialized`] when an admin is stored (and `init` is not
/// run), else `init`'s error. On error nothing changes.
pub fn initialize_once<F>(env: &mut Env, admin: Address, init: F) -> (r: Result<(), Error>)
    where
        F: FnOnce() -> Result<(), Error>,
    requires
        old(env).instance.admin is None ==> init.requires(()),
    ensures
        old(env).instance.admin is Some ==> r == Err::<(), Error>(Error::AlreadyInitialized) && *final(env) == *old(env),
        old(env).instance.admin is None ==> exists|res: Result<(), Error>| {
            &&& #[trigger] init.ensures((), res)
            &&& r == res
            &&& res is Err ==> *final(env) == *old(env)
            &&& res is Ok ==> final(env).instance == (InstanceStorage { admin: Some(admin), ..old(env).instance })
        },
        only_instance_changed(*old(env), *final(env)),
{
    require_not_initialized(env)?;
    let res = init();
    match res {
        Ok(()) => {},
        Err(e) => return Err(e),
    }
    proof {
        crate::guard_validator::lemma_ok_is_unit(res);
    }
    env.instance.admin = Some(admin);
    Ok(())
}

/// Initialization happens at most once: after a successful
/// [`initialize_once`], the contract is initialized and a further attempt is
/// refused with [`Error::AlreadyInitialized`].
pub proof fn lemma_initialize_at_most_once(e0: Env, e1: Env, admin: Address)
    requires
        e1.instance == (InstanceStorage { admin: Some(admin), ..e0.instance }),
    ensures
        not_initialized_check(e1) == Err::<(), Error>(Error::AlreadyInitialized),
        e1.instance.admin == Some(admin),
{
}

} // verus!
