//! Token ownership: the owner record of each token, the legacy per-token
//! data record, and the per-wallet index of held tokens.

use std::collections::HashMap;

use vstd::prelude::*;

use crate::env::{Env, PersistentStorage};
use crate::types::{Address, Error, TokenData, TokenId};

verus! {

broadcast use vstd::std_specs::hash::group_hash_axioms;

/// `e2` differs from `e1` at most in persistent storage.
pub open spec fn only_persistent_changed(e1: Env, e2: Env) -> bool {
    &&& e2.timestamp == e1.timestamp
    &&& e2.contract_address == e1.contract_address && e2.auth == e1.auth
    &&& e2.instance == e1.instance
    &&& e2.events == e1.events
}

/// The persistent storage with the owner records replaced by those of `p2`.
pub open spec fn with_owners(p: PersistentStorage, p2: PersistentStorage) -> PersistentStorage {
    PersistentStorage { token_owners: p2.token_owners, ..p }
}

/// The persistent storage with the token data records replaced by those of `p2`.
pub open spec fn with_tokens(p: PersistentStorage, p2: PersistentStorage) -> PersistentStorage {
    PersistentStorage { tokens: p2.tokens, ..p }
}

/// The persistent storage with the wallet index replaced by that of `p2`.
pub open spec fn with_wallets(p: PersistentStorage, p2: PersistentStorage) -> PersistentStorage {
    PersistentStorage { wallet_tokens: p2.wallet_tokens, ..p }
}

/// Owner of `token_id`.
///
/// # Errors
/// [`Error::TokenNotFound`] when the token has no owner record.
pub fn get_owner(env: &Env, token_id: TokenId) -> (r: Result<Address, Error>)
    ensures
        r == (if env.persistent.token_owners@.contains_key(token_id) {
            Ok(env.persistent.token_owners@[token_id])
        } else {
            Err(Error::TokenNotFound)
        }),
{
    match env.persistent.token_owners.get(&token_id) {
        Some(o) => Ok(*o),
        None => Err(Error::TokenNotFound),
    }
}

/// Whether `token_id` has an owner record.
pub fn token_exists(env: &Env, token_id: TokenId) -> (r: bool)
    ensures
        r == env.persistent.token_owners@.contains_key(token_id),
{
    env.persistent.token_owners.contains_key(&token_id)
}

/// Record `owner` as the owner of `token_id`.
pub fn save_owner(env: &mut Env, token_id: TokenId, owner: Address)
    ensures
        final(env).persistent.token_owners@ == old(env).persistent.token_owners@.insert(token_id, owner),
        final(env).persistent == with_owners(old(env).persistent, final(env).persistent),
        only_persistent_changed(*old(env), *final(env)),
{
    env.persistent.token_owners.insert(token_id, owner);
}

/// Record a newly minted token: its owner and its data record.
///
/// # Errors
/// [`Error::DuplicateRecord`] when the token already has an owner; storage is
/// unchanged.
pub fn assign_owner(env: &mut Env, token_id: TokenId, owner: Address, clip_id: u32) -> (r: Result<(), Error>)
    ensures
        r is Ok <==> !old(env).persistent.token_owners@.contains_key(token_id),
        r is Err ==> r == Err::<(), Error>(Error::DuplicateRecord) && *final(env) == *old(env),
        r is Ok ==> {
            &&& final(env).persistent.token_owners@ == old(env).persistent.token_owners@.insert(token_id, owner)
            &&& final(env).persistent.tokens@ == old(env).persistent.tokens@.insert(
                token_id,
                TokenData { owner, clip_id },
            )
            &&& final(env).persistent == with_tokens(with_owners(old(env).persistent, final(env).persistent), final(env).persistent)
        },
        only_persistent_changed(*old(env), *final(env)),
{
    if token_exists(env, token_id) {
        return Err(Error::DuplicateRecord);
    }
    env.persistent.token_owners.insert(token_id, owner);
    env.persistent.tokens.insert(token_id, TokenData { owner, clip_id });
    Ok(())
}

/// The legacy data record of `token_id`.
///
/// # Errors
/// [`Error::TokenNotFound`] when the token has no data record.
pub fn get_token(env: &Env, token_id: TokenId) -> (r: Result<TokenData, Error>)
    ensures
        r == (if env.persistent.tokens@.contains_key(token_id) {
            Ok(env.persistent.tokens@[token_id])
        } else {
            Err(Error::TokenNotFound)
        }),
{
    match env.persistent.tokens.get(&token_id) {
        Some(t) => Ok(*t),
        None => Err(Error::TokenNotFound),
    }
}

/// Store the legacy data record of `token_id`.
pub fn set_token(env: &mut Env, token_id: TokenId, data: TokenData)
    ensures
        final(env).persistent.tokens@ == old(env).persistent.tokens@.insert(token_id, data),
        final(env).persistent == with_tokens(old(env).persistent, final(env).persistent),
        only_persistent_changed(*old(env), *final(env)),
{
    env.persistent.tokens.insert(token_id, data);
}

/// The tokens of a wallet, as stored (empty if none).
pub open spec fn wallet_of(m: Map<Address, Vec<TokenId>>, wallet: Address) -> Seq<TokenId> {
    if m.contains_key(wallet) {
        m[wallet]@
    } else {
        Seq::empty()
    }
}

/// `s` without any occurrence of `t`, order otherwise kept.
pub open spec fn without(s: Seq<TokenId>, t: TokenId) -> Seq<TokenId> {
    s.filter(other_than(t))
}

/// The predicate "is not `t`".
pub open spec fn other_than(t: TokenId) -> spec_fn(TokenId) -> bool {
    |x: TokenId| x != t
}

/// `s` with `t` appended unless it already occurs.
pub open spec fn with_token(s: Seq<TokenId>, t: TokenId) -> Seq<TokenId> {
    if s.contains(t) {
        s
    } else {
        s.push(t)
    }
}

/// The tokens held by `wallet`, oldest first.
pub fn get_wallet_tokens(env: &Env, wallet: Address) -> (r: Vec<TokenId>)
    ensures
        r@ == wallet_of(env.persistent.wallet_tokens@, wallet),
{
    match env.persistent.wallet_tokens.get(&wallet) {
        Some(v) => v.clone(),
        None => Vec::new(),
    }
}

/// Whether `s` contains `t`.
pub fn contains_token(s: &Vec<TokenId>, t: TokenId) -> (r: bool)
    ensures
        r == s@.contains(t),
{
    let n = s.len();
    let mut i: usize = 0;
    while i < n
        invariant
            n == s@.len(),
            i <= n,
            forall|k: int| 0 <= k < i ==> s@[k] != t,
        decreases n - i,
    {
        if s[i] == t {
            return true;
        }
        i = i + 1;
    }
    false
}

/// A copy of `s` without any occurrence of `t`.
pub fn remove_token(s: &Vec<TokenId>, t: TokenId) -> (r: Vec<TokenId>)
    ensures
        r@ == without(s@, t),
{
    let mut next: Vec<TokenId> = Vec::new();
    let n = s.len();
    let mut i: usize = 0;
    let ghost pred = other_than(t);
    while i < n
        invariant
            n == s@.len(),
            i <= n,
            pred == other_than(t),
            next@ == s@.take(i as int).filter(pred),
        decreases n - i,
    {
        let x = s[i];
        proof {
            s@.lemma_take_succ_push(i as int);
            s@.take(i as int).lemma_filter_push(x, pred);
        }
        if x != t {
            next.push(x);
        }
        i = i + 1;
    }
    proof {
        s@.lemma_take_len();
    }
    next
}

/// Add `token_id` to the list of `key` in `map`, unless it is already there.
pub fn index_insert(map: &mut HashMap<Address, Vec<TokenId>>, key: Address, token_id: TokenId)
    ensures
        final(map)@ == old(map)@.insert(key, final(map)@[key]),
        final(map)@[key]@ == with_token(wallet_of(old(map)@, key), token_id),
{
    let mut list = match map.get(&key) {
        Some(v) => v.clone(),
        None => Vec::new(),
    };
    assert(list@ =~= wallet_of(old(map)@, key));
    if !contains_token(&list, token_id) {
        list.push(token_id);
    }
    map.insert(key, list);
}

/// Remove `token_id` from the list of `key` in `map`; a key without a list
/// is left alone.
pub fn index_delete(map: &mut HashMap<Address, Vec<TokenId>>, key: Address, token_id: TokenId)
    ensures
        !old(map)@.contains_key(key) ==> final(map)@ == old(map)@,
        old(map)@.contains_key(key) ==> final(map)@ == old(map)@.insert(key, final(map)@[key]),
        old(map)@.contains_key(key) ==> final(map)@[key]@ == without(old(map)@[key]@, token_id),
{
    let next = match map.get(&key) {
        Some(v) => remove_token(v, token_id),
        None => return,
    };
    map.insert(key, next);
}

/// Add `token_id` to `wallet`'s index unless it is already there.
pub fn add_token_to_wallet(env: &mut Env, wallet: Address, token_id: TokenId)
    ensures
        final(env).persistent.wallet_tokens@.contains_key(wallet),
        final(env).persistent.wallet_tokens@ == old(env).persistent.wallet_tokens@.insert(
            wallet,
            final(env).persistent.wallet_tokens@[wallet],
        ),
        final(env).persistent.wallet_tokens@[wallet]@ == with_token(
            wallet_of(old(env).persistent.wallet_tokens@, wallet),
            token_id,
        ),
        final(env).persistent == with_wallets(old(env).persistent, final(env).persistent),
        only_persistent_changed(*old(env), *final(env)),
{
    let mut list = get_wallet_tokens(env, wallet);
    if !contains_token(&list, token_id) {
        list.push(token_id);
    }
    env.persistent.wallet_tokens.insert(wallet, list);
}

/// Remove `token_id` from `wallet`'s index.
pub fn remove_token_from_wallet(env: &mut Env, wallet: Address, token_id: TokenId)
    ensures
        final(env).persistent.wallet_tokens@.contains_key(wallet),
        final(env).persistent.wallet_tokens@ == old(env).persistent.wallet_tokens@.insert(
            wallet,
            final(env).persistent.wallet_tokens@[wallet],
        ),
        final(env).persistent.wallet_tokens@[wallet]@ == without(
            wallet_of(old(env).persistent.wallet_tokens@, wallet),
            token_id,
        ),
        final(env).persistent == with_wallets(old(env).persistent, final(env).persistent),
        only_persistent_changed(*old(env), *final(env)),
{
    let list = get_wallet_tokens(env, wallet);
    let next = remove_token(&list, token_id);
    env.persistent.wallet_tokens.insert(wallet, next);
}

/// Move `token_id` from `from`'s index to `to`'s index.
pub fn move_token_between_wallets(env: &mut Env, from: Address, to: Address, token_id: TokenId)
    ensures
        final(env).persistent.wallet_tokens@ == old(env).persistent.wallet_tokens@
            .insert(from, final(env).persistent.wallet_tokens@[from])
            .insert(to, final(env).persistent.wallet_tokens@[to]),
        from != to ==> final(env).persistent.wallet_tokens@[from]@ == without(
            wallet_of(old(env).persistent.wallet_tokens@, from),
            token_id,
        ),
        from != to ==> final(env).persistent.wallet_tokens@[to]@ == with_token(
            wallet_of(old(env).persistent.wallet_tokens@, to),
            token_id,
        ),
        from == to ==> final(env).persistent.wallet_tokens@[to]@ == with_token(
            without(wallet_of(old(env).persistent.wallet_tokens@, from), token_id),
            token_id,
        ),
        final(env).persistent == with_wallets(old(env).persistent, final(env).persistent),
        only_persistent_changed(*old(env), *final(env)),
{
    remove_token_from_wallet(env, from, token_id);
    add_token_to_wallet(env, to, token_id);
}

} // verus!
