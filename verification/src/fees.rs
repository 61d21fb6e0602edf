//! Platform fee, platform recipient and accumulated platform revenue; the
//! royalty configuration of each token and its history of royalty payments.

use vstd::prelude::*;

use crate::env::{Env, InstanceStorage, PersistentStorage};
use crate::types::{Address, Error, Royalty, RoyaltyPayment, RoyaltyRecipient, TokenId, MAX_ROYALTY_BPS};

verus! {

broadcast use vstd::std_specs::hash::group_hash_axioms;

/// Only the instance storage changed from `e1` to `e2`.
pub open spec fn only_instance_changed(e1: Env, e2: Env) -> bool {
    &&& e2.timestamp == e1.timestamp
    &&& e2.contract_address == e1.contract_address && e2.auth == e1.auth
    &&& e2.persistent == e1.persistent
    &&& e2.events == e1.events
}

/// The platform fee in basis points (0 when none is set).
pub open spec fn platform_fee_of(env: Env) -> u32 {
    match env.instance.platform_fee_bps {
        Some(b) => b,
        None => 0,
    }
}

/// The platform fee in basis points (0 when none is set).
pub fn get_platform_fee(env: &Env) -> (r: u32)
    ensures
        r == platform_fee_of(*env),
{
    match env.instance.platform_fee_bps {
        Some(b) => b,
        None => 0,
    }
}

/// Set the platform fee.
///
/// # Errors
/// [`Error::InvalidBasisPoints`] when `bps > 10 000`; nothing changes.
pub fn set_platform_fee(env: &mut Env, bps: u32) -> (r: Result<(), Error>)
    ensures
        r is Ok <==> bps <= MAX_ROYALTY_BPS,
        r is Err ==> r == Err::<(), Error>(Error::InvalidBasisPoints) && *final(env) == *old(env),
        r is Ok ==> final(env).instance == (InstanceStorage { platform_fee_bps: Some(bps), ..old(env).instance }),
        only_instance_changed(*old(env), *final(env)),
{
    if bps > MAX_ROYALTY_BPS {
        return Err(Error::InvalidBasisPoints);
    }
    env.instance.platform_fee_bps = Some(bps);
    Ok(())
}

/// The wallet that receives platform fees.
///
/// # Errors
/// [`Error::InvalidRecipient`] when none is set.
pub fn get_platform_recipient(env: &Env) -> (r: Result<Address, Error>)
    ensures
        r == (match env.instance.platform_recipient {
            Some(a) => Ok(a),
            None => Err(Error::InvalidRecipient),
        }),
{
    match env.instance.platform_recipient {
        Some(a) => Ok(a),
        None => Err(Error::InvalidRecipient),
    }
}

/// Set the wallet that receives platform fees.
pub fn save_platform_recipient(env: &mut Env, recipient: Address)
    ensures
        final(env).instance == (InstanceStorage { platform_recipient: Some(recipient), ..old(env).instance }),
        only_instance_changed(*old(env), *final(env)),
{
    env.instance.platform_recipient = Some(recipient);
}

/// Platform revenue accumulated so far.
pub fn get_platform_revenue(env: &Env) -> (r: i128)
    ensures
        r == env.instance.platform_revenue,
{
    env.instance.platform_revenue
}

/// `revenue + amount`, held at `i128::MAX` when the sum would not fit.
pub open spec fn added_revenue(revenue: i128, amount: i128) -> i128 {
    if revenue + amount > i128::MAX {
        i128::MAX
    } else {
        (revenue + amount) as i128
    }
}

/// Add a collected platform fee to the accumulated revenue.
pub fn update_platform_revenue(env: &mut Env, amount: i128)
    requires
        amount >= 0,
    ensures
        final(env).instance == (InstanceStorage {
            platform_revenue: added_revenue(old(env).instance.platform_revenue, amount),
            ..old(env).instance
        }),
        old(env).instance.platform_revenue + amount <= i128::MAX ==> final(env).instance.platform_revenue
            == old(env).instance.platform_revenue + amount,
        old(env).instance.platform_revenue + amount > i128::MAX ==> final(env).instance.platform_revenue == i128::MAX,
        final(env).instance.platform_revenue >= old(env).instance.platform_revenue,
        only_instance_changed(*old(env), *final(env)),
{
    let rev = env.instance.platform_revenue;
    if rev > i128::MAX - amount {
        env.instance.platform_revenue = i128::MAX;
    } else {
        env.instance.platform_revenue = rev + amount;
    }
}

/// The recipients and asset of a royalty configuration.
pub open spec fn royalty_view(r: Royalty) -> (Seq<RoyaltyRecipient>, Option<Address>) {
    (r.recipients@, r.asset_address)
}

/// A copy of `r`.
pub fn copy_royalty(r: &Royalty) -> (c: Royalty)
    ensures
        royalty_view(c) == royalty_view(*r),
{
    let recipients = r.recipients.clone();
    assert(recipients@ =~= r.recipients@);
    Royalty { recipients, asset_address: r.asset_address }
}

/// The royalty configuration of `token_id`.
///
/// # Errors
/// [`Error::TokenNotFound`] when the token has none.
pub fn get_royalty(env: &Env, token_id: TokenId) -> (r: Result<Royalty, Error>)
    ensures
        r is Ok <==> env.persistent.royalties@.contains_key(token_id),
        r is Err ==> r == Err::<Royalty, Error>(Error::TokenNotFound),
        r matches Ok(c) ==> royalty_view(c) == royalty_view(env.persistent.royalties@[token_id]),
{
    match env.persistent.royalties.get(&token_id) {
        Some(c) => Ok(copy_royalty(c)),
        None => Err(Error::TokenNotFound),
    }
}

/// Store the royalty configuration of `token_id`.
pub fn set_royalty(env: &mut Env, token_id: TokenId, royalty: Royalty)
    ensures
        final(env).persistent.royalties@ == old(env).persistent.royalties@.insert(token_id, royalty),
        final(env).persistent == (PersistentStorage { royalties: final(env).persistent.royalties, ..old(env).persistent }),
        final(env).instance == old(env).instance,
        final(env).events == old(env).events,
        final(env).timestamp == old(env).timestamp,
        final(env).contract_address == old(env).contract_address && final(env).auth == old(env).auth,
{
    env.persistent.royalties.insert(token_id, royalty);
}

/// The royalty payments recorded for a token, as stored (empty if none).
pub open spec fn history_of(m: Map<TokenId, Vec<RoyaltyPayment>>, token_id: TokenId) -> Seq<RoyaltyPayment> {
    if m.contains_key(token_id) {
        m[token_id]@
    } else {
        Seq::empty()
    }
}

/// The royalty payments recorded for `token_id`, oldest first.
pub fn get_royalty_history(env: &Env, token_id: TokenId) -> (r: Vec<RoyaltyPayment>)
    ensures
        r@ == history_of(env.persistent.royalty_history@, token_id),
{
    match env.persistent.royalty_history.get(&token_id) {
        Some(v) => {
            let c = v.clone();
            assert(c@ =~= v@);
            c
        },
        None => Vec::new(),
    }
}

/// Append a royalty payment to the history of `token_id`.
pub fn record_royalty_payment(env: &mut Env, token_id: TokenId, recipient: Address, amount: i128, timestamp: u64)
    ensures
        final(env).persistent.royalty_history@.contains_key(token_id),
        final(env).persistent.royalty_history@ == old(env).persistent.royalty_history@.insert(
            token_id,
            final(env).persistent.royalty_history@[token_id],
        ),
        final(env).persistent.royalty_history@[token_id]@ == history_of(old(env).persistent.royalty_history@, token_id).push(
            RoyaltyPayment { token_id, recipient, amount, timestamp },
        ),
        final(env).persistent == (PersistentStorage {
            royalty_history: final(env).persistent.royalty_history,
            ..old(env).persistent
        }),
        final(env).instance == old(env).instance,
        final(env).events == old(env).events,
        final(env).timestamp == old(env).timestamp,
        final(env).contract_address == old(env).contract_address && final(env).auth == old(env).auth,
{
    let mut h = get_royalty_history(env, token_id);
    h.push(RoyaltyPayment { token_id, recipient, amount, timestamp });
    env.persistent.royalty_history.insert(token_id, h);
}

/// Platform revenue accumulates: adding a non-negative fee gives the revenue
/// before plus the fee (held at `i128::MAX`), never less than before, and
/// two fees added in turn give the revenue plus both of them.
pub proof fn lemma_platform_revenue_accumulates(revenue: i128, f1: i128, f2: i128)
    requires
        f1 >= 0,
        f2 >= 0,
    ensures
        revenue + f1 <= i128::MAX ==> added_revenue(revenue, f1) == revenue + f1,
        revenue + f1 > i128::MAX ==> added_revenue(revenue, f1) == i128::MAX,
        added_revenue(revenue, f1) >= revenue,
        revenue + f1 + f2 <= i128::MAX ==> added_revenue(added_revenue(revenue, f1), f2) == revenue + f1 + f2,
{
}

} // verus!
