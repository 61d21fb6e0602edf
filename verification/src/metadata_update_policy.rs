//! One-time metadata updates: each token's metadata may be updated once,
//! except by the admin.

use vstd::prelude::*;

use crate::env::{Env, PersistentStorage};
use crate::ownership::only_persistent_changed;
use crate::types::{Address, Error, TokenId};

verus! {

broadcast use vstd::std_specs::hash::group_hash_axioms;

/// Whether the token's one update has been used.
pub fn is_update_used(env: &Env, token_id: TokenId) -> (r: bool)
    ensures
        r == env.persistent.metadata_updated@.contains(token_id),
{
    env.persistent.metadata_updated.contains(&token_id)
}

/// Record that the token's one update has been used.
pub fn mark_update_used(env: &mut Env, token_id: TokenId)
    ensures
        final(env).persistent.metadata_updated@ == old(env).persistent.metadata_updated@.insert(token_id),
        final(env).persistent == (PersistentStorage {
            metadata_updated: final(env).persistent.metadata_updated,
            ..old(env).persistent
        }),
        only_persistent_changed(*old(env), *final(env)),
{
    env.persistent.metadata_updated.insert(token_id);
}

/// Outcome of [`check_update_allowed`].
pub open spec fn update_policy_check(env: Env, token_id: TokenId, caller: Address) -> Result<(), Error> {
    if env.instance.admin == Some(caller) {
        Ok(())
    } else if env.persistent.metadata_updated@.contains(token_id) {
        Err(Error::MetadataAlreadyUpdated)
    } else {
        Ok(())
    }
}

/// The admin may always update; anyone else only while the token's one
/// update is unused.
///
/// # Errors
/// [`Error::MetadataAlreadyUpdated`] when the update is used and the caller
/// is not the admin.
pub fn check_update_allowed(env: &Env, token_id: TokenId, caller: Address) -> (r: Result<(), Error>)
    ensures
        r == update_policy_check(*env, token_id, caller),
{
    if let Some(a) = env.instance.admin {
        if caller == a {
            return Ok(());
        }
    }
    if is_update_used(env, token_id) {
        return Err(Error::MetadataAlreadyUpdated);
    }
    Ok(())
}

/// After the one update is used, only the admin may update again.
pub proof fn lemma_one_update_per_token(e0: Env, e1: Env, token_id: TokenId, caller: Address)
    requires
        e1.instance == e0.instance,
        e1.persistent.metadata_updated@ == e0.persistent.metadata_updated@.insert(token_id),
    ensures
        update_policy_check(e1, token_id, caller) is Ok <==> e1.instance.admin == Some(caller),
{
}

} // verus!
