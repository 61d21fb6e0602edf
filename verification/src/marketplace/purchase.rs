//! Buying a listed NFT: validate the listing and the buyer, split the price
//! into royalties, platform fee and the seller's remainder, record the
//! payments, transfer the token and mark the listing sold.

use vstd::prelude::*;

use crate::controls;
use crate::env::{Env, InstanceStorage, PersistentStorage};
use crate::events::{ContractEvent, NftSoldEvent, RoyaltyPaidEvent};
use crate::fees::{self, added_revenue, history_of, platform_fee_of};
use crate::marketplace::listing_storage;
use crate::marketplace::types::{expired, Listing, ListingStatus, PurchaseResult};
use crate::ownership::{self, wallet_of, with_token, without};
use crate::safe_math::{self, deduction_result, royalty_amount_result};
use crate::types::{
    lemma_total_bps_monotone, lemma_total_bps_push, total_bps, Address, Error, RoyaltyPayment,
    RoyaltyRecipient, TokenData, TokenId,
};

verus! {

broadcast use vstd::std_specs::hash::group_hash_axioms;

/// The royalty recipients configured for `token_id` (none when unset).
pub open spec fn recipients_of(env: Env, token_id: TokenId) -> Seq<RoyaltyRecipient> {
    if env.persistent.royalties@.contains_key(token_id) {
        env.persistent.royalties@[token_id].recipients@
    } else {
        Seq::empty()
    }
}

/// The asset royalties of `token_id` are paid in (none when unset).
pub open spec fn royalty_asset_of(env: Env, token_id: TokenId) -> Option<Address> {
    if env.persistent.royalties@.contains_key(token_id) {
        env.persistent.royalties@[token_id].asset_address
    } else {
        None
    }
}

/// Per-recipient royalty amounts on `price`, or the first recipient's error.
pub open spec fn amounts_result(price: i128, recipients: Seq<RoyaltyRecipient>) -> Result<Seq<i128>, Error>
    decreases recipients.len(),
{
    if recipients.len() == 0 {
        Ok(Seq::empty())
    } else {
        match amounts_result(price, recipients.drop_last()) {
            Err(e) => Err(e),
            Ok(prev) => match royalty_amount_result(price as int, recipients.last().basis_points as int) {
                Err(e) => Err(e),
                Ok(a) => Ok(prev.push(a)),
            },
        }
    }
}

/// The payment records of a sale: one per recipient whose amount is
/// positive, in recipient order.
pub open spec fn payments_of(
    token_id: TokenId,
    timestamp: u64,
    recipients: Seq<RoyaltyRecipient>,
    amounts: Seq<i128>,
) -> Seq<RoyaltyPayment>
    decreases recipients.len(),
{
    if recipients.len() == 0 || amounts.len() == 0 {
        Seq::empty()
    } else {
        let prev = payments_of(token_id, timestamp, recipients.drop_last(), amounts.drop_last());
        if amounts.last() > 0 {
            prev.push(RoyaltyPayment { token_id, recipient: recipients.last().recipient, amount: amounts.last(), timestamp })
        } else {
            prev
        }
    }
}

/// The royalty-paid event of a payment made by `payer`.
pub open spec fn royalty_paid_event(p: RoyaltyPayment, payer: Address, asset: Option<Address>) -> ContractEvent {
    ContractEvent::RoyaltyPaid(RoyaltyPaidEvent {
        token_id: p.token_id,
        payer,
        receiver: p.recipient,
        amount: p.amount,
        asset_address: asset,
        timestamp: p.timestamp,
    })
}

/// The royalty-paid events of a list of payments, in order.
pub open spec fn royalty_events(payments: Seq<RoyaltyPayment>, payer: Address, asset: Option<Address>) -> Seq<ContractEvent> {
    Seq::new(payments.len(), |i: int| royalty_paid_event(payments[i], payer, asset))
}

/// The checks on the listing, the buyer and the token, in the order they are
/// made; `Ok` when they all pass.
pub open spec fn purchase_precheck(env: Env, buyer: Address, token_id: TokenId) -> Result<Listing, Error> {
    if env.instance.paused {
        Err(Error::ContractPaused)
    } else if env.instance.royalty_paused {
        Err(Error::RoyaltyPaused)
    } else if !env.persistent.listings@.contains_key(token_id) {
        Err(Error::TokenNotFound)
    } else {
        let l = env.persistent.listings@[token_id];
        if l.status != ListingStatus::Active {
            Err(Error::ListingNotActive)
        } else if expired(l.expires_at, env.timestamp) {
            Err(Error::ListingExpired)
        } else if buyer == l.seller {
            Err(Error::CannotPurchaseOwnListing)
        } else if env.persistent.blacklisted@.contains(buyer) {
            Err(Error::InvalidAddress)
        } else if buyer == env.contract_address {
            Err(Error::InvalidRecipient)
        } else if env.persistent.frozen@.contains(token_id) {
            Err(Error::Unauthorized)
        } else if !env.persistent.token_owners@.contains_key(token_id) {
            Err(Error::TokenNotFound)
        } else {
            Ok(l)
        }
    }
}

/// The error `purchase_listing` returns, if any.
pub open spec fn purchase_error(env: Env, buyer: Address, token_id: TokenId) -> Option<Error> {
    match purchase_precheck(env, buyer, token_id) {
        Err(e) => Some(e),
        Ok(l) => {
            let recipients = recipients_of(env, token_id);
            if total_bps(recipients) > u32::MAX {
                Some(Error::RoyaltyOverflow)
            } else {
                match deduction_result(l.price as int, total_bps(recipients), platform_fee_of(env) as int) {
                    Err(e) => Some(e),
                    Ok(_) => match amounts_result(l.price, recipients) {
                        Err(e) => Some(e),
                        Ok(_) => None,
                    },
                }
            }
        },
    }
}

/// Sum of the basis points of `recipients`, or `None` when it exceeds
/// `u32::MAX`.
pub(crate) fn sum_basis_points(recipients: &Vec<RoyaltyRecipient>) -> (r: Option<u32>)
    ensures
        r matches Some(t) ==> t == total_bps(recipients@),
        r is None <==> total_bps(recipients@) > u32::MAX,
{
    let n = recipients.len();
    let mut total: u32 = 0;
    let mut i: usize = 0;
    while i < n
        invariant
            n == recipients@.len(),
            i <= n,
            total == total_bps(recipients@.take(i as int)),
        decreases n - i,
    {
        proof {
            lemma_total_bps_push(recipients@, i as int);
            lemma_total_bps_monotone(recipients@, i + 1);
        }
        match total.checked_add(recipients[i].basis_points) {
            Some(t) => total = t,
            None => return None,
        }
        i = i + 1;
    }
    assert(recipients@.take(n as int) =~= recipients@);
    Some(total)
}

/// Per-recipient royalty amounts on `price`.
pub(crate) fn royalty_amounts(price: i128, recipients: &Vec<RoyaltyRecipient>) -> (r: Result<Vec<i128>, Error>)
    ensures
        match r {
            Ok(v) => amounts_result(price, recipients@) == Ok::<Seq<i128>, Error>(v@),
            Err(e) => amounts_result(price, recipients@) == Err::<Seq<i128>, Error>(e),
        },
        r matches Ok(v) ==> v@.len() == recipients@.len(),
{
    let n = recipients.len();
    let mut amounts: Vec<i128> = Vec::new();
    let mut i: usize = 0;
    while i < n
        invariant
            n == recipients@.len(),
            i <= n,
            amounts_result(price, recipients@.take(i as int)) == Ok::<Seq<i128>, Error>(amounts@),
            amounts@.len() == i,
        decreases n - i,
    {
        let ghost pre = recipients@.take(i as int);
        let ghost cur = recipients@.take(i + 1);
        assert(cur.drop_last() =~= pre);
        assert(cur.last() == recipients@[i as int]);
        match safe_math::safe_royalty_amount(price, recipients[i].basis_points) {
            Ok(a) => amounts.push(a),
            Err(e) => {
                proof {
                    lemma_amounts_err_extends(price, recipients@, i as int + 1, e);
                }
                return Err(e);
            },
        }
        i = i + 1;
    }
    assert(recipients@.take(n as int) =~= recipients@);
    Ok(amounts)
}

/// An error on a prefix of the recipients is the error on the whole list.
proof fn lemma_amounts_err_extends(price: i128, recipients: Seq<RoyaltyRecipient>, i: int, e: Error)
    requires
        0 <= i <= recipients.len(),
        amounts_result(price, recipients.take(i)) == Err::<Seq<i128>, Error>(e),
    ensures
        amounts_result(price, recipients) == Err::<Seq<i128>, Error>(e),
    decreases recipients.len() - i,
{
    if i == recipients.len() {
        assert(recipients.take(i) =~= recipients);
    } else {
        let cur = recipients.take(i + 1);
        assert(cur.drop_last() =~= recipients.take(i));
        lemma_amounts_err_extends(price, recipients, i + 1, e);
    }
}

/// The payment records of a sale.
pub(crate) fn collect_payments(
    token_id: TokenId,
    timestamp: u64,
    recipients: &Vec<RoyaltyRecipient>,
    amounts: &Vec<i128>,
) -> (r: Vec<RoyaltyPayment>)
    requires
        amounts@.len() == recipients@.len(),
    ensures
        r@ == payments_of(token_id, timestamp, recipients@, amounts@),
{
    let n = recipients.len();
    let mut payments: Vec<RoyaltyPayment> = Vec::new();
    let mut i: usize = 0;
    while i < n
        invariant
            n == recipients@.len(),
            n == amounts@.len(),
            i <= n,
            payments@ == payments_of(token_id, timestamp, recipients@.take(i as int), amounts@.take(i as int)),
        decreases n - i,
    {
        let ghost rc = recipients@.take(i + 1);
        let ghost ac = amounts@.take(i + 1);
        assert(rc.drop_last() =~= recipients@.take(i as int));
        assert(ac.drop_last() =~= amounts@.take(i as int));
        assert(rc.last() == recipients@[i as int]);
        assert(ac.last() == amounts@[i as int]);
        let a = amounts[i];
        if a > 0 {
            payments.push(RoyaltyPayment { token_id, recipient: recipients[i].recipient, amount: a, timestamp });
        }
        i = i + 1;
    }
    assert(recipients@.take(n as int) =~= recipients@);
    assert(amounts@.take(n as int) =~= amounts@);
    payments
}

/// Publish one royalty-paid event per payment, in order.
pub(crate) fn publish_royalty_events(env: &mut Env, payments: &Vec<RoyaltyPayment>, payer: Address, asset: Option<Address>)
    ensures
        final(env).events@ == old(env).events@ + royalty_events(payments@, payer, asset),
        final(env).timestamp == old(env).timestamp,
        final(env).contract_address == old(env).contract_address && final(env).auth == old(env).auth,
        final(env).instance == old(env).instance,
        final(env).persistent == old(env).persistent,
{
    let n = payments.len();
    let mut i: usize = 0;
    while i < n
        invariant
            n == payments@.len(),
            i <= n,
            env.events@ == old(env).events@ + royalty_events(payments@.take(i as int), payer, asset),
            env.timestamp == old(env).timestamp,
            env.contract_address == old(env).contract_address && env.auth == old(env).auth,
            env.instance == old(env).instance,
            env.persistent == old(env).persistent,
        decreases n - i,
    {
        let p = payments[i];
        env.publish(ContractEvent::RoyaltyPaid(RoyaltyPaidEvent {
            token_id: p.token_id,
            payer,
            receiver: p.recipient,
            amount: p.amount,
            asset_address: asset,
            timestamp: p.timestamp,
        }));
        assert(royalty_events(payments@.take(i + 1), payer, asset) =~= royalty_events(payments@.take(i as int), payer, asset).push(
            royalty_paid_event(payments@[i as int], payer, asset),
        ));
        i = i + 1;
    }
    assert(payments@.take(n as int) =~= payments@);
}

/// Append `payments` to the royalty history of `token_id`; nothing is
/// written when there are none.
pub(crate) fn append_history(env: &mut Env, token_id: TokenId, payments: &Vec<RoyaltyPayment>)
    ensures
        payments@.len() == 0 ==> final(env).persistent.royalty_history == old(env).persistent.royalty_history,
        payments@.len() > 0 ==> final(env).persistent.royalty_history@ == old(env).persistent.royalty_history@.insert(
            token_id,
            final(env).persistent.royalty_history@[token_id],
        ),
        payments@.len() > 0 ==> final(env).persistent.royalty_history@[token_id]@
            == history_of(old(env).persistent.royalty_history@, token_id) + payments@,
        final(env).persistent == (PersistentStorage {
            royalty_history: final(env).persistent.royalty_history,
            ..old(env).persistent
        }),
        final(env).timestamp == old(env).timestamp,
        final(env).contract_address == old(env).contract_address && final(env).auth == old(env).auth,
        final(env).instance == old(env).instance,
        final(env).events == old(env).events,
{
    if payments.len() == 0 {
        return;
    }
    let mut h = fees::get_royalty_history(env, token_id);
    let ghost h0 = h@;
    let n = payments.len();
    let mut i: usize = 0;
    while i < n
        invariant
            n == payments@.len(),
            i <= n,
            h@ == h0 + payments@.take(i as int),
        decreases n - i,
    {
        h.push(payments[i]);
        assert(h0 + payments@.take(i + 1) =~= (h0 + payments@.take(i as int)).push(payments@[i as int]));
        i = i + 1;
    }
    assert(payments@.take(n as int) =~= payments@);
    env.persistent.royalty_history.insert(token_id, h);
}

/// Buy the listing of `token_id` for `buyer`, who must have authorized the
/// invocation.
///
/// The sale price is split into the royalties configured for the token, the
/// platform fee and the seller's remainder. On success the royalty payments
/// with a positive amount are appended to the token's royalty history and
/// announced one event each, the platform fee is added to the platform
/// revenue when a platform recipient is set, the token passes to the buyer
/// (owner record, wallet index and legacy data record), the listing is marked
/// sold, and a sale event is published.
///
/// # Errors
/// In the order checked: [`Error::ContractPaused`], [`Error::RoyaltyPaused`],
/// [`Error::TokenNotFound`] (no listing), [`Error::ListingNotActive`],
/// [`Error::ListingExpired`], [`Error::CannotPurchaseOwnListing`],
/// [`Error::InvalidAddress`] (blacklisted buyer), [`Error::InvalidRecipient`]
/// (buyer is the contract), [`Error::Unauthorized`] (frozen token),
/// [`Error::TokenNotFound`] (no owner record), [`Error::RoyaltyOverflow`]
/// (basis points overflow), then the errors of
/// [`safe_math::validate_total_deduction_amount`] and of
/// [`safe_math::safe_royalty_amount`] per recipient. On error nothing changes.
pub fn purchase_listing(env: &mut Env, buyer: Address, token_id: TokenId) -> (r: Result<PurchaseResult, Error>)
    requires
        old(env).authorizes(buyer),
    ensures
        r is Err <==> purchase_error(*old(env), buyer, token_id) is Some,
        r matches Err(e) ==> purchase_error(*old(env), buyer, token_id) == Some(e) && *final(env) == *old(env),
        r matches Ok(res) ==> {
            let e0 = *old(env);
            let l = e0.persistent.listings@[token_id];
            let recipients = recipients_of(e0, token_id);
            let (royalty_amount, fee_amount) = deduction_result(l.price as int, total_bps(recipients), platform_fee_of(e0) as int)->Ok_0;
            let amounts = amounts_result(l.price, recipients)->Ok_0;
            let payments = payments_of(token_id, e0.timestamp, recipients, amounts);
            let e1 = *final(env);
            &&& res.token_id == token_id
            &&& res.seller == l.seller
            &&& res.buyer == buyer
            &&& res.sale_price == l.price
            &&& res.platform_fee == fee_amount
            &&& res.total_royalty == royalty_amount
            &&& res.royalty_payments@ == payments
            &&& res.timestamp == e0.timestamp
            // ownership passes to the buyer
            &&& e1.persistent.token_owners@ == e0.persistent.token_owners@.insert(token_id, buyer)
            &&& e1.persistent.wallet_tokens@ == e0.persistent.wallet_tokens@
                .insert(l.seller, e1.persistent.wallet_tokens@[l.seller])
                .insert(buyer, e1.persistent.wallet_tokens@[buyer])
            &&& e1.persistent.wallet_tokens@[l.seller]@ == without(wallet_of(e0.persistent.wallet_tokens@, l.seller), token_id)
            &&& e1.persistent.wallet_tokens@[buyer]@ == with_token(wallet_of(e0.persistent.wallet_tokens@, buyer), token_id)
            &&& e1.persistent.tokens@ == (if e0.persistent.tokens@.contains_key(token_id) {
                e0.persistent.tokens@.insert(token_id, TokenData { owner: buyer, ..e0.persistent.tokens@[token_id] })
            } else {
                e0.persistent.tokens@
            })
            // the listing is sold
            &&& e1.persistent.listings@ == e0.persistent.listings@.insert(
                token_id,
                Listing { status: ListingStatus::Sold, buyer: Some(buyer), sold_at: Some(e0.timestamp), ..l },
            )
            // payments are recorded
            &&& payments.len() == 0 ==> e1.persistent.royalty_history == e0.persistent.royalty_history
            &&& payments.len() > 0 ==> e1.persistent.royalty_history@ == e0.persistent.royalty_history@.insert(
                token_id,
                e1.persistent.royalty_history@[token_id],
            )
            &&& payments.len() > 0 ==> e1.persistent.royalty_history@[token_id]@ == history_of(e0.persistent.royalty_history@, token_id) + payments
            // the platform fee is added to the revenue collected so far
            &&& fee_amount > 0 && e0.instance.platform_recipient is Some && e0.instance.platform_revenue + fee_amount
                <= i128::MAX ==> e1.instance.platform_revenue == e0.instance.platform_revenue + fee_amount
            &&& e1.instance.platform_revenue >= e0.instance.platform_revenue
            &&& e1.instance == (if fee_amount > 0 && e0.instance.platform_recipient is Some {
                InstanceStorage { platform_revenue: added_revenue(e0.instance.platform_revenue, fee_amount), ..e0.instance }
            } else {
                e0.instance
            })
            // nothing else in storage changes
            &&& e1.persistent == (PersistentStorage {
                token_owners: e1.persistent.token_owners,
                tokens: e1.persistent.tokens,
                wallet_tokens: e1.persistent.wallet_tokens,
                listings: e1.persistent.listings,
                royalty_history: e1.persistent.royalty_history,
                ..e0.persistent
            })
            // events: one per payment, then the sale
            &&& e1.events@ == e0.events@ + royalty_events(payments, buyer, royalty_asset_of(e0, token_id)).push(
                ContractEvent::NftSold(NftSoldEvent {
                    token_id,
                    seller: l.seller,
                    buyer,
                    sale_amount: l.price,
                    payment_asset: l.payment_asset,
                    timestamp: e0.timestamp,
                }),
            )
            &&& e1.timestamp == e0.timestamp
            &&& e1.contract_address == e0.contract_address && e1.auth == e0.auth
        },
{
    // Checks on the listing, the buyer and the token.
    controls::require_not_paused(env)?;
    controls::require_royalty_not_paused(env)?;
    let listing = listing_storage::get_listing(env, token_id)?;
    if listing.status != ListingStatus::Active {
        return Err(Error::ListingNotActive);
    }
    if listing.expires_at > 0 && listing.expires_at <= env.timestamp {
        return Err(Error::ListingExpired);
    }
    if buyer == listing.seller {
        return Err(Error::CannotPurchaseOwnListing);
    }
    if controls::is_blacklisted(env, buyer) {
        return Err(Error::InvalidAddress);
    }
    if buyer == env.contract_address {
        return Err(Error::InvalidRecipient);
    }
    if controls::is_frozen(env, token_id) {
        return Err(Error::Unauthorized);
    }
    let _owner = ownership::get_owner(env, token_id)?;

    // Fees and royalties.
    let sale_price = listing.price;
    let platform_fee_bps = fees::get_platform_fee(env);
    let (recipients, asset) = match fees::get_royalty(env, token_id) {
        Ok(r) => (r.recipients, r.asset_address),
        Err(_) => (Vec::new(), None),
    };
    assert(recipients@ == recipients_of(*old(env), token_id));
    assert(asset == royalty_asset_of(*old(env), token_id));
    let total_royalty_bps = match sum_basis_points(&recipients) {
        Some(t) => t,
        None => return Err(Error::RoyaltyOverflow),
    };
    let (total_royalty_amount, platform_fee_amount) = safe_math::validate_total_deduction_amount(
        sale_price,
        total_royalty_bps,
        platform_fee_bps,
    )?;
    let amounts = royalty_amounts(sale_price, &recipients)?;
    let timestamp = env.timestamp;
    let payments = collect_payments(token_id, timestamp, &recipients, &amounts);

    // Record the payments and the platform fee.
    append_history(env, token_id, &payments);
    publish_royalty_events(env, &payments, buyer, asset);
    if platform_fee_amount > 0 {
        if let Ok(_platform_wallet) = fees::get_platform_recipient(env) {
            fees::update_platform_revenue(env, platform_fee_amount);
        }
    }

    // Transfer the token.
    let seller = listing.seller;
    ownership::save_owner(env, token_id, buyer);
    ownership::move_token_between_wallets(env, seller, buyer, token_id);
    if let Ok(token_data) = ownership::get_token(env, token_id) {
        ownership::set_token(env, token_id, TokenData { owner: buyer, ..token_data });
    }

    // Mark the listing sold and announce the sale.
    let sold = listing_storage::mark_as_sold(env, token_id, buyer);
    assert(sold is Ok);
    env.publish(ContractEvent::NftSold(NftSoldEvent {
        token_id,
        seller,
        buyer,
        sale_amount: sale_price,
        payment_asset: listing.payment_asset,
        timestamp,
    }));

    Ok(PurchaseResult {
        token_id,
        seller,
        buyer,
        sale_price,
        platform_fee: platform_fee_amount,
        total_royalty: total_royalty_amount,
        royalty_payments: payments,
        timestamp,
    })
}

/// A listing is sold at most once: once it is marked sold, every further
/// purchase of the token fails, with [`Error::ListingNotActive`] unless a
/// pause switch answers first.
pub proof fn lemma_sold_listing_not_purchasable(env: Env, buyer: Address, token_id: TokenId)
    requires
        env.persistent.listings@.contains_key(token_id),
        env.persistent.listings@[token_id].status == ListingStatus::Sold,
    ensures
        purchase_error(env, buyer, token_id) is Some,
        !env.instance.paused && !env.instance.royalty_paused ==> purchase_error(env, buyer, token_id) == Some(Error::ListingNotActive),
{
}

/// The royalty and the platform fee that a purchase takes never exceed the
/// sale price, and neither is negative.
pub proof fn lemma_purchase_deductions_within_price(sale_price: i128, royalty_bps: u32, fee_bps: u32)
    requires
        deduction_result(sale_price as int, royalty_bps as int, fee_bps as int) is Ok,
    ensures
        ({
            let (r, f) = deduction_result(sale_price as int, royalty_bps as int, fee_bps as int)->Ok_0;
            &&& 0 <= r && 0 <= f
            &&& r + f <= sale_price
        }),
{
    crate::safe_math::lemma_bps_share_bounds_nonneg(sale_price as int, royalty_bps as int);
    crate::safe_math::lemma_bps_share_bounds_nonneg(sale_price as int, fee_bps as int);
}

} // verus!
