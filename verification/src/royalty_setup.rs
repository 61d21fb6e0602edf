//! The default royalty rate, and the royalty records written for a token at
//! mint time.

use vstd::prelude::*;

use crate::env::{Env, InstanceStorage, PersistentStorage};
use crate::fees::{only_instance_changed, royalty_view};
use crate::guards::royalty::validate_royalty_recipient;
use crate::ownership::only_persistent_changed;
use crate::types::{total_bps, Address, Error, Royalty, RoyaltyRecipient, TokenId, MAX_ROYALTY_BPS};

verus! {

broadcast use vstd::std_specs::hash::group_hash_axioms;

/// Royalty rate used when none is configured: 5 %.
pub const DEFAULT_ROYALTY_BPS: u32 = 500;

/// The default royalty rate in force.
pub open spec fn default_royalty_of(env: Env) -> u32 {
    match env.instance.default_royalty_bps {
        Some(b) => b,
        None => DEFAULT_ROYALTY_BPS,
    }
}

/// The default royalty rate in force.
pub fn get_default_royalty_bps(env: &Env) -> (r: u32)
    ensures
        r == default_royalty_of(*env),
{
    match env.instance.default_royalty_bps {
        Some(b) => b,
        None => DEFAULT_ROYALTY_BPS,
    }
}

/// Store the default royalty rate.
///
/// # Errors
/// [`Error::InvalidBasisPoints`] when `bps > 10 000`; nothing changes.
pub fn set_default_royalty_bps(env: &mut Env, bps: u32) -> (r: Result<(), Error>)
    ensures
        r == (if bps <= MAX_ROYALTY_BPS { Ok(()) } else { Err(Error::InvalidBasisPoints) }),
        r is Err ==> *final(env) == *old(env),
        r is Ok ==> final(env).instance == (InstanceStorage { default_royalty_bps: Some(bps), ..old(env).instance }),
        only_instance_changed(*old(env), *final(env)),
{
    if bps > MAX_ROYALTY_BPS {
        return Err(Error::InvalidBasisPoints);
    }
    env.instance.default_royalty_bps = Some(bps);
    Ok(())
}

/// Royalty fields given with a mint; absent recipients fall back to a
/// single recipient at the default rate.
pub struct RoyaltyInitParams {
    pub recipients: Option<Vec<RoyaltyRecipient>>,
    pub asset_address: Option<Address>,
}

/// The recipients a mint resolves to.
pub open spec fn resolved_recipients(env: Env, params: RoyaltyInitParams, fallback: Address) -> Seq<RoyaltyRecipient> {
    match params.recipients {
        Some(r) => r@,
        None => seq![RoyaltyRecipient { recipient: fallback, basis_points: default_royalty_of(env) }],
    }
}

/// Sum of basis points, when it is at most 10 000.
fn bounded_total(recipients: &Vec<RoyaltyRecipient>) -> (r: Option<u32>)
    ensures
        r matches Some(t) ==> t == total_bps(recipients@),
        r is None <==> total_bps(recipients@) > MAX_ROYALTY_BPS,
{
    let n = recipients.len();
    let mut total: u32 = 0;
    let mut i: usize = 0;
    while i < n
        invariant
            n == recipients@.len(),
            i <= n,
            total == total_bps(recipients@.take(i as int)),
            total <= MAX_ROYALTY_BPS,
        decreases n - i,
    {
        proof {
            crate::types::lemma_total_bps_push(recipients@, i as int);
            crate::types::lemma_total_bps_monotone(recipients@, i + 1);
        }
        let b = recipients[i].basis_points;
        if b > MAX_ROYALTY_BPS || total + b > MAX_ROYALTY_BPS {
            return None;
        }
        total = total + b;
        i = i + 1;
    }
    assert(recipients@.take(n as int) =~= recipients@);
    Some(total)
}

/// Resolve and store the royalty of a newly minted token: the royalty
/// record, its first recipient and its total rate.
///
/// # Errors
/// [`Error::InvalidBasisPoints`] when there is no recipient or the rates
/// add up to more than 10 000 bps; nothing changes.
pub fn initialize_nft_royalty(
    env: &mut Env,
    token_id: TokenId,
    params: &RoyaltyInitParams,
    fallback_recipient: Address,
) -> (r: Result<Royalty, Error>)
    ensures
        ({
            let recipients = resolved_recipients(*old(env), *params, fallback_recipient);
            &&& r is Ok <==> (recipients.len() > 0 && total_bps(recipients) <= MAX_ROYALTY_BPS)
            &&& r is Err ==> r == Err::<Royalty, Error>(Error::InvalidBasisPoints) && *final(env) == *old(env)
            &&& r matches Ok(roy) ==> {
                &&& royalty_view(roy) == (recipients, params.asset_address)
                &&& final(env).persistent.royalties@.contains_key(token_id)
                &&& royalty_view(final(env).persistent.royalties@[token_id]) == (recipients, params.asset_address)
                &&& final(env).persistent.royalties@ == old(env).persistent.royalties@.insert(
                    token_id,
                    final(env).persistent.royalties@[token_id],
                )
                &&& final(env).persistent.royalty_recipient@ == old(env).persistent.royalty_recipient@.insert(
                    token_id,
                    recipients[0].recipient,
                )
                &&& final(env).persistent.royalty_percentage@ == old(env).persistent.royalty_percentage@.insert(
                    token_id,
                    total_bps(recipients) as u32,
                )
                &&& final(env).persistent == (PersistentStorage {
                    royalties: final(env).persistent.royalties,
                    royalty_recipient: final(env).persistent.royalty_recipient,
                    royalty_percentage: final(env).persistent.royalty_percentage,
                    ..old(env).persistent
                })
                &&& only_persistent_changed(*old(env), *final(env))
            }
        }),
{
    let recipients: Vec<RoyaltyRecipient> = match &params.recipients {
        Some(r) => {
            let c = r.clone();
            assert(c@ =~= r@);
            c
        },
        None => {
            let bps = get_default_royalty_bps(env);
            let v = vec![RoyaltyRecipient { recipient: fallback_recipient, basis_points: bps }];
            assert(v@ =~= seq![RoyaltyRecipient { recipient: fallback_recipient, basis_points: bps }]);
            v
        },
    };
    if recipients.len() == 0 {
        return Err(Error::InvalidBasisPoints);
    }
    let n = recipients.len();
    let mut i: usize = 0;
    while i < n
        invariant
            n == recipients@.len(),
            i <= n,
        decreases n - i,
    {
        validate_royalty_recipient(env, recipients[i].recipient)?;
        i = i + 1;
    }
    let total = match bounded_total(&recipients) {
        Some(t) => t,
        None => return Err(Error::InvalidBasisPoints),
    };
    let first = recipients[0].recipient;
    let royalty = Royalty { recipients, asset_address: params.asset_address };
    let kept = crate::fees::copy_royalty(&royalty);
    env.persistent.royalties.insert(token_id, royalty);
    env.persistent.royalty_recipient.insert(token_id, first);
    env.persistent.royalty_percentage.insert(token_id, total);
    Ok(kept)
}

/// Store the royalty of a newly minted token from a full royalty record,
/// whose first recipient is the fallback.
pub fn initialize_nft_royalty_from_royalty(env: &mut Env, token_id: TokenId, royalty: &Royalty) -> (r: Result<Royalty, Error>)
    requires
        royalty.recipients@.len() > 0,
    ensures
        r is Ok <==> total_bps(royalty.recipients@) <= MAX_ROYALTY_BPS,
        r is Err ==> r == Err::<Royalty, Error>(Error::InvalidBasisPoints) && *final(env) == *old(env),
        r matches Ok(roy) ==> royalty_view(roy) == royalty_view(*royalty),
        r matches Ok(roy) ==> final(env).persistent.royalties@.contains_key(token_id)
            && royalty_view(final(env).persistent.royalties@[token_id]) == royalty_view(*royalty),
{
    let first = royalty.recipients[0].recipient;
    let recipients = royalty.recipients.clone();
    assert(recipients@ =~= royalty.recipients@);
    let params = RoyaltyInitParams { recipients: Some(recipients), asset_address: royalty.asset_address };
    initialize_nft_royalty(env, token_id, &params, first)
}

/// A mint that names no royalty recipients gets exactly one, the fallback
/// address, at the default rate in force: the rate the admin stored with
/// [`set_default_royalty_bps`] when one is stored, else 500 bps; and the
/// recorded total rate is that same rate.
pub proof fn lemma_default_rate_applies(env: Env, params: RoyaltyInitParams, fallback: Address)
    requires
        params.recipients is None,
    ensures
        env.instance.default_royalty_bps matches Some(b) ==> resolved_recipients(env, params, fallback)
            == seq![RoyaltyRecipient { recipient: fallback, basis_points: b }],
        env.instance.default_royalty_bps is None ==> resolved_recipients(env, params, fallback)
            == seq![RoyaltyRecipient { recipient: fallback, basis_points: 500 }],
        env.instance.default_royalty_bps matches Some(b) ==> total_bps(resolved_recipients(env, params, fallback)) == b,
        env.instance.default_royalty_bps is None ==> total_bps(resolved_recipients(env, params, fallback)) == 500,
{
    let r = resolved_recipients(env, params, fallback);
    assert(r.len() == 1);
    assert(r.drop_last() =~= Seq::<RoyaltyRecipient>::empty());
    assert(total_bps(r.drop_last()) == 0);
}

} // verus!
