//! The contract entry points: configuration, initialization, default
//! royalty, royalty configuration, royalty quotes and payments, and
//! cumulative earnings.

use vstd::prelude::*;

use crate::config::{config_valid, validate_config, Config, MAX_BATCH_MINT_SIZE};
use crate::env::{Env, InstanceStorage, PersistentStorage};
use crate::fees::{self, history_of, only_instance_changed, royalty_view};
use crate::guards::admin::require_admin;
use crate::marketplace::purchase::{
    amounts_result, append_history, collect_payments, payments_of, publish_royalty_events, royalty_amounts, royalty_events,
};
use crate::royalty_setup::{self, default_royalty_of, DEFAULT_ROYALTY_BPS};
use crate::safe_math::{royalty_amount_result, safe_royalty_amount};
use crate::types::{royalty_valid, total_bps, validate_royalty, Address, Error, Royalty, RoyaltyPayment, TokenId, MAX_ROYALTY_BPS};

verus! {

broadcast use vstd::std_specs::hash::group_hash_axioms;

/// The configurable NFT contract.
pub struct ClipCashNFT;

/// The configuration [`ClipCashNFT::init`] stores for `admin`.
pub open spec fn initial_config(admin: Address) -> Config {
    Config {
        admin,
        max_royalty_bps: DEFAULT_ROYALTY_BPS,
        mint_cooldown_secs: 0,
        platform_fee_bps: 0,
        max_batch_mint_size: MAX_BATCH_MINT_SIZE,
    }
}

impl ClipCashNFT {
    /// Store the initial configuration with `admin` in charge.
    pub fn init(env: &mut Env, admin: Address)
        requires
            old(env).instance.config is None,
        ensures
            final(env).instance == (InstanceStorage { config: Some(initial_config(admin)), ..old(env).instance }),
            only_instance_changed(*old(env), *final(env)),
    {
        env.instance.config = Some(Config {
            admin,
            max_royalty_bps: DEFAULT_ROYALTY_BPS,
            mint_cooldown_secs: 0,
            platform_fee_bps: 0,
            max_batch_mint_size: MAX_BATCH_MINT_SIZE,
        });
    }

    /// The stored configuration.
    pub fn get_config(env: &Env) -> (r: Config)
        requires
            env.instance.config is Some,
        ensures
            Some(r) == env.instance.config,
    {
        match env.instance.config {
            Some(c) => c,
            None => {
                assert(false);
                Config { admin: 0, max_royalty_bps: 0, mint_cooldown_secs: 0, platform_fee_bps: 0, max_batch_mint_size: 0 }
            },
        }
    }

    /// Replace the configuration; only its admin may.
    ///
    /// # Errors
    /// [`Error::Unauthorized`] when `updater` is not the configured admin,
    /// [`Error::InvalidConfig`] when the new configuration is invalid. On
    /// error nothing changes.
    pub fn set_config(env: &mut Env, updater: Address, config: Config) -> (r: Result<(), Error>)
        requires
            old(env).instance.config is Some,
        ensures
            r == (if old(env).instance.config.unwrap().admin != updater {
                Err(Error::Unauthorized)
            } else if !config_valid(config) {
                Err(Error::InvalidConfig)
            } else {
                Ok(())
            }),
            r is Err ==> *final(env) == *old(env),
            r is Ok ==> final(env).instance == (InstanceStorage { config: Some(config), ..old(env).instance }),
            only_instance_changed(*old(env), *final(env)),
    {
        let current = Self::get_config(env);
        if current.admin != updater {
            return Err(Error::Unauthorized);
        }
        match validate_config(&config) {
            Ok(()) => {},
            Err(e) => return Err(e),
        }
        env.instance.config = Some(config);
        Ok(())
    }
}

/// The NFT contract with royalties.
pub struct ClipsNftContract;

/// A royalty quote: who receives it and how much.
#[derive(Clone, Copy, Debug, PartialEq, Eq, Structural)]
pub struct RoyaltyInfo {
    pub receiver: Address,
    pub royalty_amount: i128,
}

/// The royalty payments made on a sale.
pub struct RoyaltyPaymentResult {
    pub token_id: TokenId,
    pub payer: Address,
    pub sale_price: i128,
    pub payments: Vec<RoyaltyPayment>,
    pub timestamp: u64,
}

/// `a + b`, held within the range of `i128`.
pub open spec fn clamped_add(a: i128, b: i128) -> i128 {
    if a + b > i128::MAX {
        i128::MAX
    } else if a + b < i128::MIN {
        i128::MIN
    } else {
        (a + b) as i128
    }
}

/// The running total of payment amounts, held within the range of `i128`.
pub open spec fn earnings_of(payments: Seq<RoyaltyPayment>) -> i128
    decreases payments.len(),
{
    if payments.len() == 0 {
        0
    } else {
        clamped_add(earnings_of(payments.drop_last()), payments.last().amount)
    }
}

/// Outcome of [`ClipsNftContract::royalty_info`].
pub open spec fn royalty_info_result(env: Env, token_id: TokenId, sale_price: i128) -> Result<RoyaltyInfo, Error> {
    if !env.persistent.royalties@.contains_key(token_id) {
        Err(Error::TokenNotFound)
    } else {
        let recipients = env.persistent.royalties@[token_id].recipients@;
        if recipients.len() == 0 || total_bps(recipients) > u32::MAX {
            Err(Error::InvalidBasisPoints)
        } else {
            match royalty_amount_result(sale_price as int, total_bps(recipients)) {
                Ok(a) => Ok(RoyaltyInfo { receiver: recipients[0].recipient, royalty_amount: a }),
                Err(e) => Err(e),
            }
        }
    }
}

/// The error [`ClipsNftContract::pay_royalty`] fails with, if any.
pub open spec fn pay_royalty_error(env: Env, token_id: TokenId, sale_price: i128) -> Option<Error> {
    if env.instance.royalty_paused {
        Some(Error::RoyaltyPaused)
    } else if sale_price <= 0 {
        Some(Error::InvalidSalePrice)
    } else if !env.persistent.royalties@.contains_key(token_id) {
        Some(Error::TokenNotFound)
    } else {
        match amounts_result(sale_price, env.persistent.royalties@[token_id].recipients@) {
            Err(e) => Some(e),
            Ok(_) => None,
        }
    }
}

impl ClipsNftContract {
    /// Store `admin` and start the token and batch counters.
    pub fn init(env: &mut Env, admin: Address)
        requires
            old(env).instance.admin is None,
        ensures
            final(env).instance == (InstanceStorage {
                admin: Some(admin),
                next_token_id: Some(0),
                next_batch_id: Some(0),
                ..old(env).instance
            }),
            only_instance_changed(*old(env), *final(env)),
    {
        env.instance.admin = Some(admin);
        env.instance.next_token_id = Some(0);
        env.instance.next_batch_id = Some(0);
    }

    /// Set the default royalty rate; only the admin may.
    ///
    /// # Errors
    /// [`Error::NotInitialized`] (no admin), [`Error::Unauthorized`] (not the
    /// admin), [`Error::InvalidBasisPoints`] (`bps > 10 000`). On error
    /// nothing changes.
    pub fn set_default_royalty_bps(env: &mut Env, admin: Address, bps: u32) -> (r: Result<(), Error>)
        ensures
            r == (match old(env).instance.admin {
                None => Err(Error::NotInitialized),
                Some(a) => if a != admin {
                    Err(Error::Unauthorized)
                } else if bps > MAX_ROYALTY_BPS {
                    Err(Error::InvalidBasisPoints)
                } else {
                    Ok(())
                },
            }),
            r is Err ==> *final(env) == *old(env),
            r is Ok ==> final(env).instance == (InstanceStorage { default_royalty_bps: Some(bps), ..old(env).instance }),
            only_instance_changed(*old(env), *final(env)),
    {
        require_admin(env, admin)?;
        royalty_setup::set_default_royalty_bps(env, bps)
    }

    /// The default royalty rate in force.
    pub fn get_default_royalty_bps(env: &Env) -> (r: u32)
        ensures
            r == default_royalty_of(*env),
    {
        royalty_setup::get_default_royalty_bps(env)
    }

    /// The royalty amounts recorded for `token_id`, summed.
    pub fn get_cumulative_earnings(env: &Env, token_id: TokenId) -> (r: i128)
        ensures
            r == earnings_of(history_of(env.persistent.royalty_history@, token_id)),
    {
        let history = fees::get_royalty_history(env, token_id);
        let n = history.len();
        let mut total: i128 = 0;
        let mut i: usize = 0;
        while i < n
            invariant
                n == history@.len(),
                i <= n,
                total == earnings_of(history@.take(i as int)),
            decreases n - i,
        {
            let a = history[i].amount;
            let ghost cur = history@.take(i + 1);
            assert(cur.drop_last() =~= history@.take(i as int));
            assert(cur.last() == history@[i as int]);
            if a > 0 && total > i128::MAX - a {
                total = i128::MAX;
            } else if a < 0 && total < i128::MIN - a {
                total = i128::MIN;
            } else {
                total = total + a;
            }
            i = i + 1;
        }
        assert(history@.take(n as int) =~= history@);
        total
    }

    /// Pay the royalties of a sale of `token_id` at `sale_price`: each
    /// recipient's share is recorded in the token's royalty history and
    /// announced, for every share that is positive.
    ///
    /// # Errors
    /// [`Error::RoyaltyPaused`], [`Error::InvalidSalePrice`],
    /// [`Error::TokenNotFound`] (no royalty configured), or a recipient's
    /// error from [`safe_royalty_amount`]. On error nothing changes.
    pub fn pay_royalty(env: &mut Env, payer: Address, token_id: TokenId, sale_price: i128) -> (r: Result<RoyaltyPaymentResult, Error>)
        ensures
            r is Err <==> pay_royalty_error(*old(env), token_id, sale_price) is Some,
            r matches Err(e) ==> pay_royalty_error(*old(env), token_id, sale_price) == Some(e) && *final(env) == *old(env),
            r matches Ok(res) ==> {
                let e0 = *old(env);
                let roy = e0.persistent.royalties@[token_id];
                let amounts = amounts_result(sale_price, roy.recipients@)->Ok_0;
                let payments = payments_of(token_id, e0.timestamp, roy.recipients@, amounts);
                &&& res.token_id == token_id
                &&& res.payer == payer
                &&& res.sale_price == sale_price
                &&& res.payments@ == payments
                &&& res.timestamp == e0.timestamp
                &&& payments.len() == 0 ==> final(env).persistent.royalty_history == e0.persistent.royalty_history
                &&& payments.len() > 0 ==> final(env).persistent.royalty_history@[token_id]@
                    == history_of(e0.persistent.royalty_history@, token_id) + payments
                &&& payments.len() > 0 ==> final(env).persistent.royalty_history@ == e0.persistent.royalty_history@.insert(
                    token_id,
                    final(env).persistent.royalty_history@[token_id],
                )
                &&& final(env).persistent == (PersistentStorage {
                    royalty_history: final(env).persistent.royalty_history,
                    ..e0.persistent
                })
                &&& final(env).events@ == e0.events@ + royalty_events(payments, payer, roy.asset_address)
                &&& final(env).instance == e0.instance
                &&& final(env).timestamp == e0.timestamp
                &&& final(env).contract_address == e0.contract_address && final(env).auth == e0.auth
            },
    {
        crate::controls::require_royalty_not_paused(env)?;
        if sale_price <= 0 {
            return Err(Error::InvalidSalePrice);
        }
        let royalty = fees::get_royalty(env, token_id)?;
        let amounts = royalty_amounts(sale_price, &royalty.recipients)?;
        let timestamp = env.timestamp;
        let payments = collect_payments(token_id, timestamp, &royalty.recipients, &amounts);
        append_history(env, token_id, &payments);
        publish_royalty_events(env, &payments, payer, royalty.asset_address);
        Ok(RoyaltyPaymentResult { token_id, payer, sale_price, payments, timestamp })
    }

    /// Quote the royalty on a sale of `token_id` at `sale_price`: the first
    /// recipient receives the token's total rate of the price.
    ///
    /// # Errors
    /// [`Error::TokenNotFound`] (no royalty configured),
    /// [`Error::InvalidBasisPoints`] (no recipient, or rates beyond `u32`),
    /// else the errors of [`safe_royalty_amount`].
    pub fn royalty_info(env: &Env, token_id: TokenId, sale_price: i128) -> (r: Result<RoyaltyInfo, Error>)
        ensures
            r == royalty_info_result(*env, token_id, sale_price),
    {
        let royalty = fees::get_royalty(env, token_id)?;
        if royalty.recipients.len() == 0 {
            return Err(Error::InvalidBasisPoints);
        }
        let total = match crate::marketplace::purchase::sum_basis_points(&royalty.recipients) {
            Some(t) => t,
            None => return Err(Error::InvalidBasisPoints),
        };
        let amount = safe_royalty_amount(sale_price, total)?;
        Ok(RoyaltyInfo { receiver: royalty.recipients[0].recipient, royalty_amount: amount })
    }

    /// Set the royalty of `token_id`; only the admin may.
    ///
    /// # Errors
    /// [`Error::NotInitialized`] / [`Error::Unauthorized`] from the admin
    /// check, [`Error::InvalidBasisPoints`] when the royalty is invalid. On
    /// error nothing changes.
    pub fn set_royalty(env: &mut Env, admin: Address, token_id: TokenId, royalty: Royalty) -> (r: Result<(), Error>)
        ensures
            r == (match old(env).instance.admin {
                None => Err(Error::NotInitialized),
                Some(a) => if a != admin {
                    Err(Error::Unauthorized)
                } else if !royalty_valid(royalty.recipients@) {
                    Err(Error::InvalidBasisPoints)
                } else {
                    Ok(())
                },
            }),
            r is Err ==> *final(env) == *old(env),
            r is Ok ==> final(env).persistent.royalties@ == old(env).persistent.royalties@.insert(token_id, royalty),
            final(env).persistent == (PersistentStorage { royalties: final(env).persistent.royalties, ..old(env).persistent }),
            final(env).instance == old(env).instance,
            final(env).events == old(env).events,
            final(env).timestamp == old(env).timestamp,
            final(env).contract_address == old(env).contract_address && final(env).auth == old(env).auth,
    {
        require_admin(env, admin)?;
        match validate_royalty(&royalty) {
            Ok(()) => {},
            Err(e) => return Err(e),
        }
        fees::set_royalty(env, token_id, royalty);
        Ok(())
    }

    /// The royalty of `token_id`.
    ///
    /// # Errors
    /// [`Error::TokenNotFound`] when none is configured.
    pub fn get_royalty(env: &Env, token_id: TokenId) -> (r: Result<Royalty, Error>)
        ensures
            r is Ok <==> env.persistent.royalties@.contains_key(token_id),
            r is Err ==> r == Err::<Royalty, Error>(Error::TokenNotFound),
            r matches Ok(c) ==> royalty_view(c) == royalty_view(env.persistent.royalties@[token_id]),
    {
        fees::get_royalty(env, token_id)
    }
}

/// A royalty set by the admin is the one read back.
pub proof fn lemma_set_royalty_read_back(e0: Env, e1: Env, token_id: TokenId, royalty: Royalty)
    requires
        e1.persistent.royalties@ == e0.persistent.royalties@.insert(token_id, royalty),
    ensures
        e1.persistent.royalties@.contains_key(token_id),
        royalty_view(e1.persistent.royalties@[token_id]) == royalty_view(royalty),
{
}

} // verus!
