//! The contract-wide maximum royalty rate.

use vstd::prelude::*;

use crate::env::{Env, InstanceStorage};
use crate::fees::only_instance_changed;
use crate::types::{Error, MAX_ROYALTY_BPS};

verus! {

/// The maximum royalty rate in force: the stored one, or 10 000 bps.
pub open spec fn max_royalty_of(env: Env) -> u32 {
    match env.instance.maximum_royalty_bps {
        Some(b) => b,
        None => MAX_ROYALTY_BPS,
    }
}

/// Store the maximum royalty rate.
///
/// # Errors
/// [`Error::InvalidBasisPoints`] when `bps > 10 000`; nothing changes.
pub fn set_max_royalty_bps(env: &mut Env, bps: u32) -> (r: Result<(), Error>)
    ensures
        r is Ok <==> bps <= MAX_ROYALTY_BPS,
        r is Err ==> r == Err::<(), Error>(Error::InvalidBasisPoints) && *final(env) == *old(env),
        r is Ok ==> final(env).instance == (InstanceStorage { maximum_royalty_bps: Some(bps), ..old(env).instance }),
        only_instance_changed(*old(env), *final(env)),
{
    if bps > MAX_ROYALTY_BPS {
        return Err(Error::InvalidBasisPoints);
    }
    env.instance.maximum_royalty_bps = Some(bps);
    Ok(())
}

/// The maximum royalty rate in force.
pub fn get_max_royalty_bps(env: &Env) -> (r: u32)
    ensures
        r == max_royalty_of(*env),
{
    match env.instance.maximum_royalty_bps {
        Some(b) => b,
        None => MAX_ROYALTY_BPS,
    }
}

/// Whether a maximum is stored.
pub fn has_max_royalty_bps(env: &Env) -> (r: bool)
    ensures
        r == env.instance.maximum_royalty_bps is Some,
{
    env.instance.maximum_royalty_bps.is_some()
}

/// Whether `bps` is within the maximum.
pub fn allowed_royalty_bps(env: &Env, bps: u32) -> (r: bool)
    ensures
        r == (bps <= max_royalty_of(*env)),
{
    bps <= get_max_royalty_bps(env)
}

/// Require `bps` to be within the maximum.
///
/// # Errors
/// [`Error::RoyaltyTooHigh`] when it is above.
pub fn validate_royalty_within_max(env: &Env, bps: u32) -> (r: Result<(), Error>)
    ensures
        r == (if bps > max_royalty_of(*env) { Err(Error::RoyaltyTooHigh) } else { Ok(()) }),
{
    if bps > get_max_royalty_bps(env) {
        return Err(Error::RoyaltyTooHigh);
    }
    Ok(())
}

/// Once a maximum is set, exactly the rates up to it are allowed.
pub proof fn lemma_set_max_then_allowed(e0: Env, e1: Env, max: u32, bps: u32)
    requires
        max <= MAX_ROYALTY_BPS,
        e1.instance == (InstanceStorage { maximum_royalty_bps: Some(max), ..e0.instance }),
    ensures
        max_royalty_of(e1) == max,
        (bps <= max_royalty_of(e1)) <==> bps <= max,
{
}

} // verus!
