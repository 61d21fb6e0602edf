//! Offer storage: at most one open offer per token, kept together with an
//! index of the tokens that have one, so expired offers can be enumerated and
//! pruned.

use std::collections::HashMap;

use vstd::prelude::*;

use crate::env::{Env, PersistentStorage};
use crate::marketplace::types::{expired, Offer};
use crate::types::{Error, TokenId};

verus! {

broadcast use vstd::std_specs::hash::group_hash_axioms;

/// Offers by token, with the index of tokens that have an offer.
pub struct OfferBook {
    offers: HashMap<TokenId, Offer>,
    index: Vec<TokenId>,
}

impl OfferBook {
    /// Offers by token.
    pub closed spec fn offers(&self) -> Map<TokenId, Offer> {
        self.offers@
    }

    /// The index: the tokens that have an offer, in the order offers were
    /// first saved.
    pub closed spec fn index(&self) -> Seq<TokenId> {
        self.index@
    }

    /// The index lists each token that has an offer exactly once, and no
    /// other token.
    pub open spec fn wf(&self) -> bool {
        &&& self.index().no_duplicates()
        &&& forall|t: TokenId| self.index().contains(t) <==> self.offers().contains_key(t)
    }

    /// An empty book.
    pub fn new() -> (r: OfferBook)
        ensures
            r.wf(),
            r.offers() == Map::<TokenId, Offer>::empty(),
            r.index() == Seq::<TokenId>::empty(),
    {
        let r = OfferBook { offers: HashMap::new(), index: Vec::new() };
        assert(r.index() =~= Seq::<TokenId>::empty());
        r
    }
}

/// The persistent storage with the offer book replaced by `book`.
pub open spec fn with_offers(p: PersistentStorage, book: OfferBook) -> PersistentStorage {
    PersistentStorage { offers: book, ..p }
}

/// `e2` differs from `e1` at most in the offer book.
pub open spec fn only_offers_changed(e1: Env, e2: Env) -> bool {
    &&& e2.timestamp == e1.timestamp
    &&& e2.contract_address == e1.contract_address && e2.auth == e1.auth
    &&& e2.instance == e1.instance
    &&& e2.events == e1.events
    &&& e2.persistent == with_offers(e1.persistent, e2.persistent.offers)
}

/// The index, as stored (empty if none).
fn load_index(env: &Env) -> (r: Vec<TokenId>)
    ensures
        r@ == env.persistent.offers.index(),
{
    env.persistent.offers.index.clone()
}

/// Add `token_id` to the index unless it is already there.
fn index_add(index: &mut Vec<TokenId>, token_id: TokenId)
    ensures
        old(index)@.contains(token_id) ==> final(index)@ == old(index)@,
        !old(index)@.contains(token_id) ==> final(index)@ == old(index)@.push(token_id),
{
    let n = index.len();
    let mut i: usize = 0;
    while i < n
        invariant
            n == index@.len(),
            index@ == old(index)@,
            i <= n,
            forall|k: int| 0 <= k < i ==> index@[k] != token_id,
        decreases n - i,
    {
        if index[i] == token_id {
            return;
        }
        i = i + 1;
    }
    index.push(token_id);
}

/// `index` without `token_id`, order otherwise kept.
fn index_remove(index: &Vec<TokenId>, token_id: TokenId) -> (r: Vec<TokenId>)
    requires
        index@.no_duplicates(),
    ensures
        r@.no_duplicates(),
        forall|t: TokenId| r@.contains(t) <==> (index@.contains(t) && t != token_id),
{
    let mut next: Vec<TokenId> = Vec::new();
    let n = index.len();
    let mut i: usize = 0;
    while i < n
        invariant
            n == index@.len(),
            index@.no_duplicates(),
            i <= n,
            next@.no_duplicates(),
            forall|t: TokenId| next@.contains(t) <==> (index@.take(i as int).contains(t) && t != token_id),
        decreases n - i,
    {
        let id = index[i];
        let ghost prev = index@.take(i as int);
        let ghost cur = index@.take(i + 1);
        proof {
            assert(cur =~= prev.push(id));
            assert(!prev.contains(id)) by {
                if prev.contains(id) {
                    let k = choose|k: int| 0 <= k < prev.len() && prev[k] == id;
                    assert(index@[k] == index@[i as int]);
                }
            }
        }
        if id != token_id {
            let ghost before = next@;
            next.push(id);
            proof {
                assert forall|t: TokenId| next@.contains(t) <==> (cur.contains(t) && t != token_id) by {
                    if next@.contains(t) && t != id {
                        let k = choose|k: int| 0 <= k < next@.len() && next@[k] == t;
                        assert(before[k] == t);
                        assert(before.contains(t));
                        let j = choose|j: int| 0 <= j < prev.len() && prev[j] == t;
                        assert(cur[j] == t);
                    }
                    if cur.contains(t) && t != token_id && t != id {
                        let k = choose|k: int| 0 <= k < cur.len() && cur[k] == t;
                        assert(prev[k] == t);
                        assert(before.contains(t));
                        let j = choose|j: int| 0 <= j < before.len() && before[j] == t;
                        assert(next@[j] == t);
                    }
                    if t == id {
                        assert(next@[before.len() as int] == id);
                        assert(cur[i as int] == id);
                    }
                }
                assert forall|x: int, y: int| 0 <= x < y < next@.len() implies next@[x] != next@[y] by {
                    if y == next@.len() - 1 {
                        assert(before[x] == next@[x]);
                        assert(before.contains(next@[x]));
                    } else {
                        assert(before[x] == next@[x]);
                        assert(before[y] == next@[y]);
                    }
                }
            }
        } else {
            proof {
                assert forall|t: TokenId| next@.contains(t) <==> (cur.contains(t) && t != token_id) by {
                    if cur.contains(t) && t != token_id {
                        let k = choose|k: int| 0 <= k < cur.len() && cur[k] == t;
                        assert(prev[k] == t);
                    }
                    if prev.contains(t) {
                        let k = choose|k: int| 0 <= k < prev.len() && prev[k] == t;
                        assert(cur[k] == t);
                    }
                }
            }
        }
        i = i + 1;
    }
    assert(index@.take(n as int) =~= index@);
    next
}

/// Save an offer, replacing any existing offer for the same token, and keep
/// the index in sync.
pub fn save_offer(env: &mut Env, offer: &Offer)
    requires
        old(env).wf(),
    ensures
        final(env).wf(),
        final(env).persistent.offers.offers() == old(env).persistent.offers.offers().insert(offer.token_id, *offer),
        only_offers_changed(*old(env), *final(env)),
{
    env.persistent.offers.offers.insert(offer.token_id, *offer);
    index_add(&mut env.persistent.offers.index, offer.token_id);
    proof {
        let idx = env.persistent.offers.index@;
        if !old(env).persistent.offers.index().contains(offer.token_id) {
            assert forall|i: int, j: int| 0 <= i < j < idx.len() implies idx[i] != idx[j] by {
                if j == idx.len() - 1 {
                    assert(old(env).persistent.offers.index()[i] == idx[i]);
                }
            }
            assert forall|t: TokenId| idx.contains(t) <==> env.persistent.offers.offers().contains_key(t) by {
                if old(env).persistent.offers.index().contains(t) {
                    let k = choose|k: int| 0 <= k < old(env).persistent.offers.index().len() && old(env).persistent.offers.index()[k] == t;
                    assert(idx[k] == t);
                }
                if t == offer.token_id {
                    assert(idx[idx.len() - 1] == t);
                }
                if idx.contains(t) && t != offer.token_id {
                    let k = choose|k: int| 0 <= k < idx.len() && idx[k] == t;
                    assert(old(env).persistent.offers.index()[k] == t);
                }
            }
        }
    }
}

/// Load the offer for `token_id`.
///
/// # Errors
/// [`Error::TokenNotFound`] when the token has no offer.
pub fn get_offer(env: &Env, token_id: TokenId) -> (r: Result<Offer, Error>)
    ensures
        r == (if env.persistent.offers.offers().contains_key(token_id) {
            Ok(env.persistent.offers.offers()[token_id])
        } else {
            Err(Error::TokenNotFound)
        }),
{
    match env.persistent.offers.offers.get(&token_id) {
        Some(o) => Ok(*o),
        None => Err(Error::TokenNotFound),
    }
}

/// Whether `token_id` has an offer.
pub fn has_offer(env: &Env, token_id: TokenId) -> (r: bool)
    ensures
        r == env.persistent.offers.offers().contains_key(token_id),
{
    env.persistent.offers.offers.contains_key(&token_id)
}

/// Replace the existing offer for `offer.token_id`.
///
/// # Errors
/// [`Error::TokenNotFound`] when the token has no offer; storage is unchanged.
pub fn update_offer(env: &mut Env, offer: &Offer) -> (r: Result<(), Error>)
    requires
        old(env).wf(),
    ensures
        final(env).wf(),
        only_offers_changed(*old(env), *final(env)),
        r is Ok <==> old(env).persistent.offers.offers().contains_key(offer.token_id),
        r is Err ==> r == Err::<(), Error>(Error::TokenNotFound) && *final(env) == *old(env),
        r is Ok ==> final(env).persistent.offers.offers() == old(env).persistent.offers.offers().insert(offer.token_id, *offer),
{
    if !has_offer(env, offer.token_id) {
        return Err(Error::TokenNotFound);
    }
    save_offer(env, offer);
    Ok(())
}

/// Remove the offer for `token_id`, if any.
pub fn remove_offer(env: &mut Env, token_id: TokenId)
    requires
        old(env).wf(),
    ensures
        final(env).wf(),
        final(env).persistent.offers.offers() == old(env).persistent.offers.offers().remove(token_id),
        only_offers_changed(*old(env), *final(env)),
{
    env.persistent.offers.offers.remove(&token_id);
    let next = index_remove(&env.persistent.offers.index, token_id);
    env.persistent.offers.index = next;
}

/// The offers of `m` that have not expired at `now`.
pub open spec fn unexpired_offers(m: Map<TokenId, Offer>, now: u64) -> Map<TokenId, Offer> {
    Map::new(|t: TokenId| m.contains_key(t) && !expired(m[t].expires_at, now), |t: TokenId| m[t])
}

/// Remove every offer whose expiration (when set) is at or before the ledger
/// timestamp. Returns how many offers were removed.
pub fn remove_expired_offers(env: &mut Env) -> (removed: u32)
    requires
        old(env).wf(),
        old(env).persistent.offers.offers().len() <= u32::MAX,
    ensures
        final(env).wf(),
        only_offers_changed(*old(env), *final(env)),
        final(env).persistent.offers.offers() == unexpired_offers(old(env).persistent.offers.offers(), old(env).timestamp),
        removed == old(env).persistent.offers.offers().len() - final(env).persistent.offers.offers().len(),
{
    let now = env.timestamp;
    let index = load_index(env);
    let ghost m0 = env.persistent.offers.offers();
    let mut removed: u32 = 0;
    let n = index.len();
    let mut i: usize = 0;
    proof {
        vstd::std_specs::hash::axiom_hashmap_view_finite_dom(env.persistent.offers.offers);
    }
    while i < n
        invariant
            n == index@.len(),
            index@ == old(env).persistent.offers.index(),
            m0 == old(env).persistent.offers.offers(),
            now == old(env).timestamp,
            i <= n,
            env.wf(),
            only_offers_changed(*old(env), *env),
            m0.dom().finite(),
            env.persistent.offers.offers().dom().finite(),
            m0.len() <= u32::MAX,
            removed as int == m0.len() - env.persistent.offers.offers().len(),
            forall|t: TokenId| #[trigger] env.persistent.offers.offers().contains_key(t) ==>
                m0.contains_key(t) && env.persistent.offers.offers()[t] == m0[t],
            forall|t: TokenId| #[trigger] m0.contains_key(t) ==> (
                env.persistent.offers.offers().contains_key(t) <==> (
                    !expired(m0[t].expires_at, now) || !index@.take(i as int).contains(t))),
            old(env).wf(),
        decreases n - i,
    {
        let token_id = index[i];
        let ghost before = env.persistent.offers.offers();
        let ghost prev = index@.take(i as int);
        let ghost cur = index@.take(i + 1);
        proof {
            assert(cur =~= prev.push(token_id));
            assert(index@.contains(token_id));
            assert(!prev.contains(token_id)) by {
                if prev.contains(token_id) {
                    let k = choose|k: int| 0 <= k < prev.len() && prev[k] == token_id;
                    assert(index@[k] == index@[i as int]);
                }
            }
            assert forall|t: TokenId| cur.contains(t) <==> (prev.contains(t) || t == token_id) by {
                if cur.contains(t) {
                    let k = choose|k: int| 0 <= k < cur.len() && cur[k] == t;
                    if k < i {
                        assert(prev[k] == t);
                    }
                }
                if prev.contains(t) {
                    let k = choose|k: int| 0 <= k < prev.len() && prev[k] == t;
                    assert(cur[k] == t);
                }
                if t == token_id {
                    assert(cur[i as int] == t);
                }
            }
        }
        match env.persistent.offers.offers.get(&token_id) {
            Some(offer) => {
                if offer.expires_at > 0 && offer.expires_at <= now {
                    remove_offer(env, token_id);
                    proof {
                        before.lemma_remove_key_len(token_id);
                        vstd::std_specs::hash::axiom_hashmap_view_finite_dom(env.persistent.offers.offers);
                    }
                    removed = removed + 1;
                }
            },
            None => {},
        }
        i = i + 1;
    }
    proof {
        assert(index@.take(n as int) =~= index@);
        assert(env.persistent.offers.offers() =~= unexpired_offers(m0, now));
    }
    removed
}

} // verus!
