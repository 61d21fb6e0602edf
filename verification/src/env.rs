//! The contract's environment: the ledger clock, the contract's own address,
//! the authorizations the current invocation carries, its instance and
//! persistent storage, and the log of published events.
//!
//! Every entry point reads and writes this value; it is the whole state that
//! the contract's rules speak of.

use std::collections::{HashMap, HashSet};

use vstd::prelude::*;

use crate::config::Config;
use crate::events::ContractEvent;
use crate::listing_request::ListingRequest;
use crate::marketplace::offer_storage::OfferBook;
use crate::marketplace::types::Listing;
use crate::types::{Address, ListingId, Royalty, RoyaltyPayment, TokenData, TokenId};

verus! {

broadcast use vstd::std_specs::hash::group_hash_axioms;

/// Creator attribution of a token.
#[derive(Clone, Debug, PartialEq, Eq)]
pub struct CreatorRecord {
    pub creator: Address,
    pub display_name: Option<Vec<u8>>,
}

/// Reverse index entry from a metadata URI to the token linked to it.
#[derive(Clone, Debug, PartialEq, Eq)]
pub struct UriIndexEntry {
    pub uri: Vec<u8>,
    pub token_id: TokenId,
}

/// An operator approval: `operator` may act on `owner`'s listings.
#[derive(Clone, Copy, Debug, PartialEq, Eq, Structural)]
pub struct OperatorApproval {
    pub owner: Address,
    pub operator: Address,
}

/// Contract-wide values (instance storage).
pub struct InstanceStorage {
    pub admin: Option<Address>,
    pub config: Option<Config>,
    pub next_token_id: Option<TokenId>,
    pub next_batch_id: Option<u64>,
    pub next_listing_id: Option<ListingId>,
    pub maximum_royalty_bps: Option<u32>,
    pub default_royalty_bps: Option<u32>,
    pub total_supply: Option<u64>,
    pub migration_version: Option<u32>,
    pub paused: bool,
    pub royalty_paused: bool,
    pub platform_fee_bps: Option<u32>,
    pub platform_recipient: Option<Address>,
    pub platform_revenue: i128,
    pub supported_currencies: Vec<Address>,
}

/// Per-key values (persistent storage).
pub struct PersistentStorage {
    pub token_owners: HashMap<TokenId, Address>,
    pub tokens: HashMap<TokenId, TokenData>,
    pub creators: HashMap<TokenId, CreatorRecord>,
    pub frozen: HashSet<TokenId>,
    pub blacklisted: HashSet<Address>,
    pub approved_minters: HashSet<Address>,
    pub operators: Vec<OperatorApproval>,
    pub active_listings: HashMap<TokenId, ListingRequest>,
    pub listings: HashMap<TokenId, Listing>,
    pub offers: OfferBook,
    pub thumbnails: HashMap<TokenId, Vec<u8>>,
    pub preview_uris: HashMap<TokenId, Vec<u8>>,
    pub metadata: HashMap<TokenId, Vec<u8>>,
    pub token_uris: HashMap<TokenId, Vec<u8>>,
    pub metadata_records: Vec<Vec<u8>>,
    pub metadata_index: Vec<UriIndexEntry>,
    pub metadata_updated: HashSet<TokenId>,
    pub registered_collections: HashSet<u32>,
    pub token_collection: HashMap<TokenId, u32>,
    pub collection_members: HashMap<u32, Vec<TokenId>>,
    pub royalties: HashMap<TokenId, Royalty>,
    pub royalty_percentage: HashMap<TokenId, u32>,
    pub royalty_recipient: HashMap<TokenId, Address>,
    pub royalty_history: HashMap<TokenId, Vec<RoyaltyPayment>>,
    pub wallet_tokens: HashMap<Address, Vec<TokenId>>,
    pub owner_tokens: HashMap<Address, Vec<TokenId>>,
    pub creator_tokens: HashMap<Address, Vec<TokenId>>,
    pub clip_to_token: HashMap<u32, TokenId>,
    pub token_clip: HashMap<TokenId, u32>,
}

/// The accounts whose authorization the current invocation carries: every
/// account when `all` is set, else those in `signers`.
pub struct Authorizations {
    pub all: bool,
    pub signers: HashSet<Address>,
}

/// The contract environment.
pub struct Env {
    /// Ledger timestamp, in seconds since the Unix epoch.
    pub timestamp: u64,
    /// The contract's own address.
    pub contract_address: Address,
    /// Who authorized the current invocation.
    pub auth: Authorizations,
    pub instance: InstanceStorage,
    pub persistent: PersistentStorage,
    /// Events published so far, oldest first.
    pub events: Vec<ContractEvent>,
}

impl Env {
    /// The environment's invariant: the offer book is consistent.
    pub open spec fn wf(&self) -> bool {
        self.persistent.offers.wf()
    }

    /// Whether the current invocation carries `account`'s authorization.
    pub open spec fn authorizes(&self, account: Address) -> bool {
        self.auth.all || self.auth.signers@.contains(account)
    }

    /// A fresh contract with empty storage at ledger time `timestamp`, in an
    /// invocation that no account has authorized.
    pub fn new(timestamp: u64, contract_address: Address) -> (r: Env)
        ensures
            r.wf(),
            r.timestamp == timestamp,
            r.contract_address == contract_address,
            !r.auth.all,
            r.auth.signers@ == Set::<Address>::empty(),
            r.events@.len() == 0,
            r.instance.admin is None,
            r.instance.config is None,
            r.instance.next_token_id is None,
            r.instance.next_batch_id is None,
            r.instance.next_listing_id is None,
            r.instance.maximum_royalty_bps is None,
            r.instance.default_royalty_bps is None,
            r.instance.total_supply is None,
            r.instance.migration_version is None,
            !r.instance.paused,
            !r.instance.royalty_paused,
            r.instance.platform_fee_bps is None,
            r.instance.platform_recipient is None,
            r.instance.platform_revenue == 0,
            r.instance.supported_currencies@.len() == 0,
            r.persistent.token_owners@ == Map::<TokenId, Address>::empty(),
            r.persistent.tokens@ == Map::<TokenId, TokenData>::empty(),
            r.persistent.creators@ == Map::<TokenId, CreatorRecord>::empty(),
            r.persistent.frozen@ == Set::<TokenId>::empty(),
            r.persistent.blacklisted@ == Set::<Address>::empty(),
            r.persistent.approved_minters@ == Set::<Address>::empty(),
            r.persistent.operators@.len() == 0,
            r.persistent.active_listings@ == Map::<TokenId, ListingRequest>::empty(),
            r.persistent.listings@ == Map::<TokenId, Listing>::empty(),
            r.persistent.offers.offers() == Map::<TokenId, crate::marketplace::types::Offer>::empty(),
            r.persistent.thumbnails@ == Map::<TokenId, Vec<u8>>::empty(),
            r.persistent.preview_uris@ == Map::<TokenId, Vec<u8>>::empty(),
            r.persistent.metadata@ == Map::<TokenId, Vec<u8>>::empty(),
            r.persistent.token_uris@ == Map::<TokenId, Vec<u8>>::empty(),
            r.persistent.metadata_records@.len() == 0,
            r.persistent.metadata_index@.len() == 0,
            r.persistent.metadata_updated@ == Set::<TokenId>::empty(),
            r.persistent.registered_collections@ == Set::<u32>::empty(),
            r.persistent.token_collection@ == Map::<TokenId, u32>::empty(),
            r.persistent.collection_members@ == Map::<u32, Vec<TokenId>>::empty(),
            r.persistent.royalties@ == Map::<TokenId, Royalty>::empty(),
            r.persistent.royalty_percentage@ == Map::<TokenId, u32>::empty(),
            r.persistent.royalty_recipient@ == Map::<TokenId, Address>::empty(),
            r.persistent.royalty_history@ == Map::<TokenId, Vec<RoyaltyPayment>>::empty(),
            r.persistent.wallet_tokens@ == Map::<Address, Vec<TokenId>>::empty(),
            r.persistent.owner_tokens@ == Map::<Address, Vec<TokenId>>::empty(),
            r.persistent.creator_tokens@ == Map::<Address, Vec<TokenId>>::empty(),
            r.persistent.clip_to_token@ == Map::<u32, TokenId>::empty(),
            r.persistent.token_clip@ == Map::<TokenId, u32>::empty(),
    {
        Env {
            timestamp,
            contract_address,
            auth: Authorizations { all: false, signers: HashSet::new() },
            instance: InstanceStorage {
                admin: None,
                config: None,
                next_token_id: None,
                next_batch_id: None,
                next_listing_id: None,
                maximum_royalty_bps: None,
                default_royalty_bps: None,
                total_supply: None,
                migration_version: None,
                paused: false,
                royalty_paused: false,
                platform_fee_bps: None,
                platform_recipient: None,
                platform_revenue: 0,
                supported_currencies: Vec::new(),
            },
            persistent: PersistentStorage {
                token_owners: HashMap::new(),
                tokens: HashMap::new(),
                creators: HashMap::new(),
                frozen: HashSet::new(),
                blacklisted: HashSet::new(),
                approved_minters: HashSet::new(),
                operators: Vec::new(),
                active_listings: HashMap::new(),
                listings: HashMap::new(),
                offers: OfferBook::new(),
                thumbnails: HashMap::new(),
                preview_uris: HashMap::new(),
                metadata: HashMap::new(),
                token_uris: HashMap::new(),
                metadata_records: Vec::new(),
                metadata_index: Vec::new(),
                metadata_updated: HashSet::new(),
                registered_collections: HashSet::new(),
                token_collection: HashMap::new(),
                collection_members: HashMap::new(),
                royalties: HashMap::new(),
                royalty_percentage: HashMap::new(),
                royalty_recipient: HashMap::new(),
                royalty_history: HashMap::new(),
                wallet_tokens: HashMap::new(),
                owner_tokens: HashMap::new(),
                creator_tokens: HashMap::new(),
                clip_to_token: HashMap::new(),
                token_clip: HashMap::new(),
            },
            events: Vec::new(),
        }
    }

    /// Move the ledger clock to `timestamp`.
    pub fn set_timestamp(&mut self, timestamp: u64)
        ensures
            final(self).timestamp == timestamp,
            final(self).contract_address == old(self).contract_address && final(self).auth == old(self).auth,
            final(self).instance == old(self).instance,
            final(self).persistent == old(self).persistent,
            final(self).events == old(self).events,
    {
        self.timestamp = timestamp;
    }

    /// Publish an event: append it to the event log.
    pub fn publish(&mut self, event: ContractEvent)
        ensures
            final(self).events@ == old(self).events@.push(event),
            final(self).timestamp == old(self).timestamp,
            final(self).contract_address == old(self).contract_address && final(self).auth == old(self).auth,
            final(self).instance == old(self).instance,
            final(self).persistent == old(self).persistent,
    {
        self.events.push(event);
    }

    /// Record that `account` authorized the current invocation.
    pub fn authorize(&mut self, account: Address)
        ensures
            final(self).auth.all == old(self).auth.all,
            final(self).auth.signers@ == old(self).auth.signers@.insert(account),
            final(self).timestamp == old(self).timestamp,
            final(self).contract_address == old(self).contract_address,
            final(self).instance == old(self).instance,
            final(self).persistent == old(self).persistent,
            final(self).events == old(self).events,
    {
        self.auth.signers.insert(account);
    }

    /// Record that every account authorized the current invocation.
    pub fn authorize_all(&mut self)
        ensures
            final(self).auth.all,
            final(self).auth.signers == old(self).auth.signers,
            final(self).timestamp == old(self).timestamp,
            final(self).contract_address == old(self).contract_address,
            final(self).instance == old(self).instance,
            final(self).persistent == old(self).persistent,
            final(self).events == old(self).events,
    {
        self.auth.all = true;
    }

    /// Whether the current invocation carries `account`'s authorization.
    pub fn is_authorized(&self, account: Address) -> (r: bool)
        ensures
            r == self.authorizes(account),
    {
        self.auth.all || self.auth.signers.contains(&account)
    }

    /// Number of events published so far.
    pub fn event_count(&self) -> (r: usize)
        ensures
            r == self.events@.len(),
    {
        self.events.len()
    }
}

} // verus!
