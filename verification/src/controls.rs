//! Administrative controls: the admin, the pause switches, the blacklist of
//! wallets, frozen tokens, supported payment currencies and operator
//! approvals.

use vstd::prelude::*;

use crate::env::{Env, OperatorApproval};
use crate::types::{Address, Error, TokenId};

verus! {

broadcast use vstd::std_specs::hash::group_hash_axioms;

/// The stored admin, if any.
pub fn get_admin(env: &Env) -> (r: Option<Address>)
    ensures
        r == env.instance.admin,
{
    env.instance.admin
}

/// Whether `caller` is the stored admin.
pub open spec fn is_admin_spec(env: Env, caller: Address) -> bool {
    env.instance.admin == Some(caller)
}

/// Whether `caller` is the stored admin (false when none is stored).
pub fn is_admin(env: &Env, caller: Address) -> (r: bool)
    ensures
        r == is_admin_spec(*env, caller),
{
    match env.instance.admin {
        Some(a) => a == caller,
        None => false,
    }
}

/// Fails while the contract is paused.
///
/// # Errors
/// [`Error::ContractPaused`] when the pause switch is on.
pub fn require_not_paused(env: &Env) -> (r: Result<(), Error>)
    ensures
        r == (if env.instance.paused { Err(Error::ContractPaused) } else { Ok(()) }),
{
    if env.instance.paused {
        Err(Error::ContractPaused)
    } else {
        Ok(())
    }
}

/// Fails while royalty-bearing operations are paused.
///
/// # Errors
/// [`Error::RoyaltyPaused`] when the royalty pause switch is on.
pub fn require_royalty_not_paused(env: &Env) -> (r: Result<(), Error>)
    ensures
        r == (if env.instance.royalty_paused { Err(Error::RoyaltyPaused) } else { Ok(()) }),
{
    if env.instance.royalty_paused {
        Err(Error::RoyaltyPaused)
    } else {
        Ok(())
    }
}

/// Turn the pause switch on or off.
pub fn save_pause_state(env: &mut Env, paused: bool)
    ensures
        final(env).instance.paused == paused,
        final(env).instance == (crate::env::InstanceStorage { paused, ..old(env).instance }),
        final(env).persistent == old(env).persistent,
        final(env).events == old(env).events,
        final(env).timestamp == old(env).timestamp,
        final(env).contract_address == old(env).contract_address && final(env).auth == old(env).auth,
{
    env.instance.paused = paused;
}

/// Whether `wallet` is blacklisted.
pub fn is_blacklisted(env: &Env, wallet: Address) -> (r: bool)
    ensures
        r == env.persistent.blacklisted@.contains(wallet),
{
    env.persistent.blacklisted.contains(&wallet)
}

/// Blacklist `wallet`.
pub fn add_wallet(env: &mut Env, wallet: Address)
    ensures
        final(env).persistent.blacklisted@ == old(env).persistent.blacklisted@.insert(wallet),
        final(env).persistent == (crate::env::PersistentStorage {
            blacklisted: final(env).persistent.blacklisted,
            ..old(env).persistent
        }),
        final(env).instance == old(env).instance,
        final(env).events == old(env).events,
        final(env).timestamp == old(env).timestamp,
        final(env).contract_address == old(env).contract_address && final(env).auth == old(env).auth,
{
    env.persistent.blacklisted.insert(wallet);
}

/// Whether `token_id` is frozen.
pub fn is_frozen(env: &Env, token_id: TokenId) -> (r: bool)
    ensures
        r == env.persistent.frozen@.contains(token_id),
{
    env.persistent.frozen.contains(&token_id)
}

/// Freeze `token_id`.
pub fn freeze_token(env: &mut Env, token_id: TokenId)
    ensures
        final(env).persistent.frozen@ == old(env).persistent.frozen@.insert(token_id),
        final(env).persistent == (crate::env::PersistentStorage {
            frozen: final(env).persistent.frozen,
            ..old(env).persistent
        }),
        final(env).instance == old(env).instance,
        final(env).events == old(env).events,
        final(env).timestamp == old(env).timestamp,
        final(env).contract_address == old(env).contract_address && final(env).auth == old(env).auth,
{
    env.persistent.frozen.insert(token_id);
}

/// Unfreeze `token_id`.
pub fn unfreeze_token(env: &mut Env, token_id: TokenId)
    ensures
        final(env).persistent.frozen@ == old(env).persistent.frozen@.remove(token_id),
        final(env).persistent == (crate::env::PersistentStorage {
            frozen: final(env).persistent.frozen,
            ..old(env).persistent
        }),
        final(env).instance == old(env).instance,
        final(env).events == old(env).events,
        final(env).timestamp == old(env).timestamp,
        final(env).contract_address == old(env).contract_address && final(env).auth == old(env).auth,
{
    env.persistent.frozen.remove(&token_id);
}

/// Whether `asset` may be used for payment: any asset while no currency is
/// configured, else only the configured ones.
///
/// While the currency list is empty every asset is accepted, so that a
/// listing or purchase with any asset on a freshly set-up contract succeeds
/// (as the listing and purchase checks expect); an asset outside a
/// non-empty list fails with [`Error::UnsupportedAsset`].
pub open spec fn supported(env: Env, asset: Address) -> bool {
    env.instance.supported_currencies@.len() == 0 || env.instance.supported_currencies@.contains(asset)
}

/// Whether `asset` is one of the configured payment currencies.
pub fn is_listed_currency(env: &Env, asset: Address) -> (r: bool)
    ensures
        r == env.instance.supported_currencies@.contains(asset),
{
    let v = &env.instance.supported_currencies;
    let n = v.len();
    let mut i: usize = 0;
    while i < n
        invariant
            n == v@.len(),
            v@ == env.instance.supported_currencies@,
            i <= n,
            forall|k: int| 0 <= k < i ==> v@[k] != asset,
        decreases n - i,
    {
        if v[i] == asset {
            assert(v@[i as int] == asset);
            return true;
        }
        i = i + 1;
    }
    false
}

/// Whether `asset` may be used for payment (see [`supported`]).
pub fn is_supported(env: &Env, asset: Address) -> (r: bool)
    ensures
        r == supported(*env, asset),
{
    env.instance.supported_currencies.len() == 0 || is_listed_currency(env, asset)
}

/// Add `asset` to the supported payment currencies.
///
/// # Errors
/// [`Error::DuplicateRecord`] when it is already supported; nothing changes.
pub fn add_currency(env: &mut Env, asset: Address) -> (r: Result<(), Error>)
    ensures
        r is Ok <==> !old(env).instance.supported_currencies@.contains(asset),
        r is Err ==> r == Err::<(), Error>(Error::DuplicateRecord) && *final(env) == *old(env),
        r is Ok ==> final(env).instance.supported_currencies@ == old(env).instance.supported_currencies@.push(asset),
        final(env).instance == (crate::env::InstanceStorage {
            supported_currencies: final(env).instance.supported_currencies,
            ..old(env).instance
        }),
        final(env).persistent == old(env).persistent,
        final(env).events == old(env).events,
        final(env).timestamp == old(env).timestamp,
        final(env).contract_address == old(env).contract_address && final(env).auth == old(env).auth,
{
    if is_listed_currency(env, asset) {
        return Err(Error::DuplicateRecord);
    }
    env.instance.supported_currencies.push(asset);
    Ok(())
}

/// Whether `operator` is approved to act for `owner`.
pub open spec fn is_operator_spec(env: Env, owner: Address, operator: Address) -> bool {
    env.persistent.operators@.contains(OperatorApproval { owner, operator })
}

/// Whether `operator` is approved to act for `owner`.
pub fn is_operator(env: &Env, owner: Address, operator: Address) -> (r: bool)
    ensures
        r == is_operator_spec(*env, owner, operator),
{
    let v = &env.persistent.operators;
    let target = OperatorApproval { owner, operator };
    let n = v.len();
    let mut i: usize = 0;
    while i < n
        invariant
            n == v@.len(),
            v@ == env.persistent.operators@,
            target == (OperatorApproval { owner, operator }),
            i <= n,
            forall|k: int| 0 <= k < i ==> v@[k] != target,
        decreases n - i,
    {
        let a = v[i];
        if a.owner == owner && a.operator == operator {
            assert(v@[i as int] == target);
            return true;
        }
        i = i + 1;
    }
    false
}

/// Approve `operator` to act for `owner`.
pub fn save_operator(env: &mut Env, owner: Address, operator: Address)
    ensures
        is_operator_spec(*final(env), owner, operator),
        forall|o: Address, p: Address|
            is_operator_spec(*final(env), o, p) <==> (is_operator_spec(*old(env), o, p) || (o == owner && p == operator)),
        final(env).persistent == (crate::env::PersistentStorage {
            operators: final(env).persistent.operators,
            ..old(env).persistent
        }),
        final(env).instance == old(env).instance,
        final(env).events == old(env).events,
        final(env).timestamp == old(env).timestamp,
        final(env).contract_address == old(env).contract_address && final(env).auth == old(env).auth,
{
    if !is_operator(env, owner, operator) {
        let ghost before = env.persistent.operators@;
        env.persistent.operators.push(OperatorApproval { owner, operator });
        proof {
            let after = env.persistent.operators@;
            assert(after[before.len() as int] == OperatorApproval { owner, operator });
            assert forall|o: Address, p: Address|
                is_operator_spec(*env, o, p) <==> (is_operator_spec(*old(env), o, p) || (o == owner && p == operator)) by {
                let a = OperatorApproval { owner: o, operator: p };
                if before.contains(a) {
                    let k = choose|k: int| 0 <= k < before.len() && before[k] == a;
                    assert(after[k] == a);
                }
                if after.contains(a) && !(o == owner && p == operator) {
                    let k = choose|k: int| 0 <= k < after.len() && after[k] == a;
                    assert(before[k] == a);
                }
                if o == owner && p == operator {
                    assert(after[before.len() as int] == a);
                }
            }
        }
    }
}

} // verus!
