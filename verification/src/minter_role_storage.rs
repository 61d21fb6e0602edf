//! The set of approved minters.

use vstd::prelude::*;

use crate::env::{Env, PersistentStorage};
use crate::ownership::only_persistent_changed;
use crate::types::Address;

verus! {

broadcast use vstd::std_specs::hash::group_hash_axioms;

/// `e2` differs from `e1` at most in the set of approved minters.
pub open spec fn only_minters_changed(e1: Env, e2: Env) -> bool {
    &&& only_persistent_changed(e1, e2)
    &&& e2.persistent == (PersistentStorage { approved_minters: e2.persistent.approved_minters, ..e1.persistent })
}

/// Approve `minter`.
pub fn add_approved_minter(env: &mut Env, minter: Address)
    ensures
        final(env).persistent.approved_minters@ == old(env).persistent.approved_minters@.insert(minter),
        only_minters_changed(*old(env), *final(env)),
{
    env.persistent.approved_minters.insert(minter);
}

/// Withdraw `minter`'s approval.
pub fn remove_approved_minter(env: &mut Env, minter: Address)
    ensures
        final(env).persistent.approved_minters@ == old(env).persistent.approved_minters@.remove(minter),
        only_minters_changed(*old(env), *final(env)),
{
    env.persistent.approved_minters.remove(&minter);
}

/// Whether `minter` is approved.
pub fn is_approved_minter(env: &Env, minter: Address) -> (r: bool)
    ensures
        r == env.persistent.approved_minters@.contains(minter),
{
    env.persistent.approved_minters.contains(&minter)
}

} // verus!
