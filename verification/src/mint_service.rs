//! The mint pipeline: reserve a token ID and write every record of a new
//! NFT, singly or as an all-or-nothing batch.

use vstd::prelude::*;

use crate::bytes::copy_bytes;
use crate::env::{CreatorRecord, Env, InstanceStorage, PersistentStorage};
use crate::events::{ContractEvent, MintEvent};
use crate::mint_request::{BatchMintRequest, MintRequest};
use crate::mint_validator::{self, batch_check, optional_uri_rejected};
use crate::ownership::{self, wallet_of, with_token, without};
use crate::token_records::{self, following_token_id, total_supply_of};
use crate::types::{total_bps, Address, Error, Royalty, RoyaltyRecipient, TokenData, TokenId, TransactionStatus, MAX_ROYALTY_BPS};

verus! {

broadcast use vstd::std_specs::hash::group_hash_axioms;

/// What a successful mint returns.
pub struct MintSuccessResponse {
    pub token_id: TokenId,
    pub owner: Address,
    pub metadata_uri: Vec<u8>,
    pub clip_id: u32,
    pub mint_timestamp: u64,
    pub status: TransactionStatus,
}

/// What a successful batch mint returns.
pub struct BatchMintResponse {
    pub batch_id: u64,
    pub minted_token_ids: Vec<TokenId>,
    pub success_count: u32,
    pub failure_count: u32,
    pub processed_at: u64,
}

/// The creator a request attributes its token to.
pub open spec fn creator_of(request: MintRequest) -> Address {
    match request.creator_address {
        Some(c) => c,
        None => request.owner,
    }
}

/// The error a mint of `request` fails with, if any. With
/// `clip_validated`, the clip is taken as already checked.
pub open spec fn mint_error(env: Env, request: MintRequest, clip_validated: bool) -> Option<Error> {
    if request.metadata_uri@.len() == 0 {
        Some(Error::InvalidURI)
    } else if total_bps(request.royalty_info.recipients@) > MAX_ROYALTY_BPS {
        Some(Error::InvalidBasisPoints)
    } else if !clip_validated && env.persistent.clip_to_token@.contains_key(request.clip_id) {
        Some(Error::ClipAlreadyMinted)
    } else if optional_uri_rejected(request.thumbnail_uri) || optional_uri_rejected(request.preview_video_uri) {
        Some(Error::InvalidURI)
    } else if total_supply_of(env) == u64::MAX {
        Some(Error::InvalidLimit)
    } else {
        None
    }
}

/// An optional URI map updated with `uri` at `token_id` when it is present.
pub open spec fn with_optional(m: Map<TokenId, Vec<u8>>, token_id: TokenId, uri: Option<Vec<u8>>) -> Map<TokenId, Vec<u8>> {
    match uri {
        Some(u) => m.insert(token_id, u),
        None => m,
    }
}

/// Whether `e` is the mint event of `request` as `token_id`.
pub open spec fn is_mint_event(e: ContractEvent, request: MintRequest, token_id: TokenId) -> bool {
    e matches ContractEvent::Mint(m) && m.to == request.owner && m.clip_id == request.clip_id
        && m.token_id == token_id && m.metadata_uri@ == request.metadata_uri@
}

/// `after` is `before` with the mint event of `request` as `token_id`
/// appended.
pub open spec fn mint_events_appended(
    before: Seq<ContractEvent>,
    after: Seq<ContractEvent>,
    request: MintRequest,
    token_id: TokenId,
    timestamp: u64,
) -> bool {
    &&& after.len() == before.len() + 1
    &&& after.take(before.len() as int) == before
    &&& is_mint_event(after[before.len() as int], request, token_id)
}

/// `e1` is `e0` after minting `request` as `token_id`.
pub open spec fn mint_applied(e0: Env, e1: Env, request: MintRequest, token_id: TokenId) -> bool {
    let p0 = e0.persistent;
    let p1 = e1.persistent;
    let recipients = request.royalty_info.recipients@;
    let creator = creator_of(request);
    &&& e1.timestamp == e0.timestamp
    &&& e1.contract_address == e0.contract_address && e1.auth == e0.auth
    &&& e1.instance == (InstanceStorage {
        next_token_id: Some(token_id),
        total_supply: Some((total_supply_of(e0) + 1) as u64),
        ..e0.instance
    })
    &&& p1.token_owners@ == p0.token_owners@.insert(token_id, request.owner)
    &&& p1.tokens@ == p0.tokens@.insert(token_id, TokenData { owner: request.owner, clip_id: request.clip_id })
    &&& p1.metadata@ == p0.metadata@.insert(token_id, request.metadata_uri)
    &&& p1.royalties@ == p0.royalties@.insert(token_id, request.royalty_info)
    &&& p1.royalty_percentage@ == p0.royalty_percentage@.insert(token_id, total_bps(recipients) as u32)
    &&& p1.royalty_recipient@ == (if recipients.len() > 0 {
        p0.royalty_recipient@.insert(token_id, recipients[0].recipient)
    } else {
        p0.royalty_recipient@
    })
    &&& p1.creators@ == p0.creators@.insert(
        token_id,
        CreatorRecord { creator, display_name: request.creator_display_name },
    )
    &&& p1.creator_tokens@ == p0.creator_tokens@.insert(creator, p1.creator_tokens@[creator])
    &&& p1.creator_tokens@[creator]@ == with_token(wallet_of(p0.creator_tokens@, creator), token_id)
    &&& p1.clip_to_token@ == p0.clip_to_token@.insert(request.clip_id, token_id)
    &&& p1.token_clip@ == p0.token_clip@.insert(token_id, request.clip_id)
    &&& p1.wallet_tokens@ == p0.wallet_tokens@.insert(request.owner, p1.wallet_tokens@[request.owner])
    &&& p1.wallet_tokens@[request.owner]@ == with_token(wallet_of(p0.wallet_tokens@, request.owner), token_id)
    &&& p1.owner_tokens@ == p0.owner_tokens@.insert(request.owner, p1.owner_tokens@[request.owner])
    &&& p1.owner_tokens@[request.owner]@ == with_token(wallet_of(p0.owner_tokens@, request.owner), token_id)
    &&& p1.thumbnails@ == with_optional(p0.thumbnails@, token_id, request.thumbnail_uri)
    &&& p1.preview_uris@ == with_optional(p0.preview_uris@, token_id, request.preview_video_uri)
    &&& p1 == (PersistentStorage {
        token_owners: p1.token_owners,
        tokens: p1.tokens,
        metadata: p1.metadata,
        royalties: p1.royalties,
        royalty_percentage: p1.royalty_percentage,
        royalty_recipient: p1.royalty_recipient,
        creators: p1.creators,
        creator_tokens: p1.creator_tokens,
        clip_to_token: p1.clip_to_token,
        token_clip: p1.token_clip,
        wallet_tokens: p1.wallet_tokens,
        owner_tokens: p1.owner_tokens,
        thumbnails: p1.thumbnails,
        preview_uris: p1.preview_uris,
        ..p0
    })
    &&& mint_events_appended(e0.events@, e1.events@, request, token_id, e0.timestamp)
}

/// Sum of the basis points of `recipients`, when it is at most 10 000.
fn royalty_total(recipients: &Vec<RoyaltyRecipient>) -> (r: Option<u32>)
    ensures
        r matches Some(t) ==> t == total_bps(recipients@) && t <= MAX_ROYALTY_BPS,
        r is None <==> total_bps(recipients@) > MAX_ROYALTY_BPS,
{
    let n = recipients.len();
    let mut total: u32 = 0;
    let mut i: usize = 0;
    while i < n
        invariant
            n == recipients@.len(),
            i <= n,
            total == total_bps(recipients@.take(i as int)),
            total <= MAX_ROYALTY_BPS,
        decreases n - i,
    {
        proof {
            crate::types::lemma_total_bps_push(recipients@, i as int);
            crate::types::lemma_total_bps_monotone(recipients@, i + 1);
        }
        let b = recipients[i].basis_points;
        if b > MAX_ROYALTY_BPS || total + b > MAX_ROYALTY_BPS {
            return None;
        }
        total = total + b;
        i = i + 1;
    }
    assert(recipients@.take(n as int) =~= recipients@);
    Some(total)
}

/// Validate an optional media URI.
fn check_optional_uri(uri: &Option<Vec<u8>>) -> (r: bool)
    ensures
        r == !optional_uri_rejected(*uri),
{
    match uri {
        Some(u) => crate::metadata_uri_builder::validate_uri(u).is_ok(),
        None => true,
    }
}

/// Write every record of a new NFT for `request`.
fn execute_mint_inner(env: &mut Env, request: MintRequest, clip_already_validated: bool) -> (r: Result<MintSuccessResponse, Error>)
    ensures
        r is Err <==> mint_error(*old(env), request, clip_already_validated) is Some,
        r matches Err(e) ==> mint_error(*old(env), request, clip_already_validated) == Some(e) && *final(env) == *old(env),
        r matches Ok(res) ==> {
            &&& res.token_id == following_token_id(*old(env))
            &&& res.owner == request.owner
            &&& res.metadata_uri@ == request.metadata_uri@
            &&& res.clip_id == request.clip_id
            &&& res.mint_timestamp == old(env).timestamp
            &&& res.status == TransactionStatus::Success
            &&& mint_applied(*old(env), *final(env), request, res.token_id)
        },
{
    // Checks, in the order the writes would meet them.
    if request.metadata_uri.len() == 0 {
        return Err(Error::InvalidURI);
    }
    let total = match royalty_total(&request.royalty_info.recipients) {
        Some(t) => t,
        None => return Err(Error::InvalidBasisPoints),
    };
    if !clip_already_validated && token_records::is_clip_mapped(env, request.clip_id) {
        return Err(Error::ClipAlreadyMinted);
    }
    if !check_optional_uri(&request.thumbnail_uri) || !check_optional_uri(&request.preview_video_uri) {
        return Err(Error::InvalidURI);
    }
    if token_records::get_total_supply(env) == u64::MAX {
        return Err(Error::InvalidLimit);
    }

    let ghost e0 = *env;
    let token_id = token_records::reserve_token_id(env);
    let timestamp = env.timestamp;
    let owner = request.owner;
    let clip_id = request.clip_id;
    let creator = match request.creator_address {
        Some(c) => c,
        None => owner,
    };
    let MintRequest {
        metadata_uri,
        thumbnail_uri,
        preview_video_uri,
        royalty_info,
        creator_display_name,
        ..
    } = request;

    // Token records.
    ownership::save_owner(env, token_id, owner);
    ownership::set_token(env, token_id, TokenData { owner, clip_id });
    let uri_copy = copy_bytes(&metadata_uri);
    let event_uri = copy_bytes(&metadata_uri);
    let stored = token_records::set_metadata(env, token_id, metadata_uri);
    assert(stored is Ok);

    // Royalty.
    let first_recipient: Option<Address> = if royalty_info.recipients.len() > 0 {
        Some(royalty_info.recipients[0].recipient)
    } else {
        None
    };
    crate::fees::set_royalty(env, token_id, royalty_info);
    let pct = token_records::set_royalty_percentage(env, token_id, total);
    assert(pct is Ok);
    if let Some(rcpt) = first_recipient {
        token_records::set_royalty_recipient(env, token_id, rcpt);
    }

    // Creator and indexes.
    token_records::set_creator_with_name(env, token_id, creator, creator_display_name);
    token_records::add_token_to_creator(env, creator, token_id);
    token_records::save_clip_id_unchecked(env, token_id, clip_id);
    ownership::add_token_to_wallet(env, owner, token_id);
    token_records::add_token_to_owner(env, owner, token_id);

    // Media.
    if let Some(thumb) = thumbnail_uri {
        let t = token_records::set_thumbnail_uri(env, token_id, thumb);
        assert(t is Ok);
    }
    if let Some(preview) = preview_video_uri {
        let p = token_records::set_preview_video_uri(env, token_id, preview);
        assert(p is Ok);
    }

    // Supply and event.
    let inc = token_records::increment_total_supply(env);
    assert(inc is Ok);
    env.publish(ContractEvent::Mint(MintEvent { to: owner, clip_id, token_id, metadata_uri: event_uri }));
    assert(env.events@.take(e0.events@.len() as int) =~= e0.events@);

    Ok(MintSuccessResponse {
        token_id,
        owner,
        metadata_uri: uri_copy,
        clip_id,
        mint_timestamp: timestamp,
        status: TransactionStatus::Success,
    })
}

/// Mint one NFT from `request`.
///
/// # Errors
/// In order: [`Error::InvalidURI`] (empty metadata URI),
/// [`Error::InvalidBasisPoints`] (royalty above 10 000 bps),
/// [`Error::ClipAlreadyMinted`], [`Error::InvalidURI`] (bad media URI),
/// [`Error::InvalidLimit`] (supply exhausted). On error nothing changes.
pub fn execute_mint(env: &mut Env, request: MintRequest) -> (r: Result<MintSuccessResponse, Error>)
    ensures
        r is Err <==> mint_error(*old(env), request, false) is Some,
        r matches Err(e) ==> mint_error(*old(env), request, false) == Some(e) && *final(env) == *old(env),
        r matches Ok(res) ==> {
            &&& res.token_id == following_token_id(*old(env))
            &&& res.owner == request.owner
            &&& res.metadata_uri@ == request.metadata_uri@
            &&& res.clip_id == request.clip_id
            &&& res.mint_timestamp == old(env).timestamp
            &&& res.status == TransactionStatus::Success
            &&& mint_applied(*old(env), *final(env), request, res.token_id)
        },
{
    execute_mint_inner(env, request, false)
}

/// Mint one NFT, with the given thumbnail and preview URIs replacing the
/// request's when present.
pub fn execute_mint_with_media(
    env: &mut Env,
    request: MintRequest,
    thumbnail: Option<Vec<u8>>,
    preview: Option<Vec<u8>>,
) -> (r: Result<MintSuccessResponse, Error>)
    ensures
        ({
            let req = MintRequest {
                thumbnail_uri: if thumbnail is Some { thumbnail } else { request.thumbnail_uri },
                preview_video_uri: if preview is Some { preview } else { request.preview_video_uri },
                ..request
            };
            &&& r is Err <==> mint_error(*old(env), req, false) is Some
            &&& r matches Err(e) ==> mint_error(*old(env), req, false) == Some(e) && *final(env) == *old(env)
            &&& r matches Ok(res) ==> {
                &&& res.token_id == following_token_id(*old(env))
                &&& res.owner == req.owner
                &&& res.metadata_uri@ == req.metadata_uri@
                &&& res.clip_id == req.clip_id
                &&& res.mint_timestamp == old(env).timestamp
                &&& res.status == TransactionStatus::Success
                &&& mint_applied(*old(env), *final(env), req, res.token_id)
            }
        }),
{
    let mut request = request;
    if thumbnail.is_some() {
        request.thumbnail_uri = thumbnail;
    }
    if preview.is_some() {
        request.preview_video_uri = preview;
    }
    execute_mint_inner(env, request, false)
}

/// The last batch ID handed out (0 before the first batch).
pub open spec fn last_batch_id(env: Env) -> u64 {
    match env.instance.next_batch_id {
        Some(b) => b,
        None => 0,
    }
}

/// The ID the next batch receives: one past the last, held at `u64::MAX`.
pub open spec fn following_batch_id(env: Env) -> u64 {
    if last_batch_id(env) == u64::MAX {
        u64::MAX
    } else {
        (last_batch_id(env) + 1) as u64
    }
}

/// Reserve the next batch ID and return it.
pub fn reserve_batch_id(env: &mut Env) -> (r: u64)
    ensures
        r == following_batch_id(*old(env)),
        final(env).instance == (InstanceStorage { next_batch_id: Some(r), ..old(env).instance }),
        crate::fees::only_instance_changed(*old(env), *final(env)),
{
    let current = match env.instance.next_batch_id {
        Some(b) => b,
        None => 0,
    };
    let next = current.saturating_add(1);
    env.instance.next_batch_id = Some(next);
    next
}

/// The environment with the batch counter set to `batch_id`.
pub open spec fn with_batch_id(env: Env, batch_id: u64) -> Env {
    Env { instance: InstanceStorage { next_batch_id: Some(batch_id), ..env.instance }, ..env }
}

/// The error a batch mint fails with, if any.
pub open spec fn batch_error(env: Env, requests: Seq<MintRequest>) -> Option<Error> {
    match batch_check(env, requests) {
        Err(e) => Some(e),
        Ok(_) => if total_supply_of(env) + requests.len() > u64::MAX {
            Some(Error::InvalidLimit)
        } else {
            None
        },
    }
}

/// `envs` is the run of single mints of `requests`, the `i`-th minted as
/// `ids[i]`.
pub open spec fn mint_run(envs: Seq<Env>, requests: Seq<MintRequest>, ids: Seq<TokenId>) -> bool {
    &&& envs.len() == requests.len() + 1
    &&& ids.len() == requests.len()
    &&& forall|i: int| 0 <= i < requests.len() ==> {
        &&& #[trigger] ids[i] == following_token_id(envs[i])
        &&& mint_applied(envs[i], envs[i + 1], requests[i], ids[i])
    }
}

/// Each request of a batch that passed its checks passes them on its own.
proof fn lemma_items_ok(env: Env, requests: Seq<MintRequest>, i: int)
    requires
        items_check_ok(env, requests),
        0 <= i < requests.len(),
    ensures
        crate::mint_validator::request_check(env, requests[i]) is Ok,
    decreases requests.len(),
{
    let prev = requests.drop_last();
    if i < requests.len() - 1 {
        assert(prev[i] == requests[i]);
        lemma_items_ok(env, prev, i);
    }
}

/// The per-request checks of a batch read only persistent storage and the
/// contract's address.
proof fn lemma_items_check_same(e1: Env, e2: Env, requests: Seq<MintRequest>)
    requires
        e1.persistent == e2.persistent,
        e1.contract_address == e2.contract_address && e1.auth == e2.auth,
    ensures
        crate::mint_validator::items_check(e1, requests) == crate::mint_validator::items_check(e2, requests),
    decreases requests.len(),
{
    if requests.len() > 0 {
        lemma_items_check_same(e1, e2, requests.drop_last());
    }
}

/// Whether the per-request checks of a batch pass.
pub open spec fn items_check_ok(env: Env, requests: Seq<MintRequest>) -> bool {
    crate::mint_validator::items_check(env, requests) is Ok
}

/// Mint a batch all-or-nothing.
///
/// A batch ID is reserved first, and stays consumed whatever follows. The
/// whole batch is then checked ([`mint_validator::validate_batch_mint`]) and
/// the supply must have room for every request; only then are the requests
/// minted, in order, each as by [`execute_mint`] with its clip already
/// checked.
///
/// # Errors
/// The first error of [`mint_validator::validate_batch_mint`], else
/// [`Error::InvalidLimit`] when the supply cannot take the whole batch. On
/// error only the batch counter has moved.
pub fn execute_batch_mint(env: &mut Env, batch: BatchMintRequest) -> (r: Result<BatchMintResponse, Error>)
    ensures
        ({
            let b = following_batch_id(*old(env));
            let e0 = with_batch_id(*old(env), b);
            &&& r is Err <==> batch_error(*old(env), batch.requests@) is Some
            &&& r matches Err(e) ==> batch_error(*old(env), batch.requests@) == Some(e) && *final(env) == e0
            &&& r matches Ok(res) ==> {
                &&& res.batch_id == b
                &&& res.success_count == batch.requests@.len()
                &&& res.failure_count == 0
                &&& res.processed_at == old(env).timestamp
                &&& exists|envs: Seq<Env>| {
                    &&& mint_run(envs, batch.requests@, res.minted_token_ids@)
                    &&& envs[0] == e0
                    &&& envs.last() == *final(env)
                }
            }
        }),
{
    let batch_id = reserve_batch_id(env);
    let ghost e0 = *env;
    assert(e0 == with_batch_id(*old(env), batch_id));
    let checked = mint_validator::validate_batch_mint(env, &batch);
    proof {
        lemma_items_check_same(e0, *old(env), batch.requests@);
    }
    assert(batch_check(e0, batch.requests@) == batch_check(*old(env), batch.requests@));
    match checked {
        Ok(()) => {},
        Err(e) => return Err(e),
    }
    let n = batch.requests.len();
    let supply = token_records::get_total_supply(env);
    if supply as u128 + n as u128 > u64::MAX as u128 {
        return Err(Error::InvalidLimit);
    }
    let ghost reqs = batch.requests@;
    let mut requests = batch.requests;
    let mut ids: Vec<TokenId> = Vec::new();
    let ghost mut envs: Seq<Env> = seq![e0];
    let mut i: usize = 0;
    while i < n
        invariant
            n == reqs.len(),
            i <= n,
            requests@ == reqs.subrange(i as int, n as int),
            items_check_ok(e0, reqs),
            total_supply_of(e0) + n <= u64::MAX,
            envs.len() == i + 1,
            envs[0] == e0,
            envs.last() == *env,
            ids@.len() == i,
            total_supply_of(*env) == total_supply_of(e0) + i,
            env.timestamp == old(env).timestamp,
            env.instance.next_batch_id == Some(batch_id),
            forall|k: int| 0 <= k < i ==> {
                &&& #[trigger] ids@[k] == following_token_id(envs[k])
                &&& mint_applied(envs[k], envs[k + 1], reqs[k], ids@[k])
            },
        decreases n - i,
    {
        let request = requests.remove(0);
        assert(request == reqs[i as int]);
        proof {
            lemma_items_ok(e0, reqs, i as int);
        }
        let ghost before = *env;
        let minted = execute_mint_inner(env, request, true);
        let res = match minted {
            Ok(res) => res,
            Err(_) => {
                assert(false);
                return Err(Error::InvalidLimit);
            },
        };
        ids.push(res.token_id);
        proof {
            envs = envs.push(*env);
            assert forall|k: int| 0 <= k < i + 1 implies {
                &&& #[trigger] ids@[k] == following_token_id(envs[k])
                &&& mint_applied(envs[k], envs[k + 1], reqs[k], ids@[k])
            } by {
                if k == i {
                    assert(envs[k] == before);
                    assert(envs[k + 1] == *env);
                }
            }
        }
        i = i + 1;
        assert(reqs.subrange(i as int, n as int) =~= reqs.subrange(i - 1, n as int).remove(0));
    }
    let count: u32 = n as u32;
    Ok(BatchMintResponse {
        batch_id,
        minted_token_ids: ids,
        success_count: count,
        failure_count: 0,
        processed_at: env.timestamp,
    })
}

/// `e1` is `e0` with every record of `token_id` (minted from `clip_id` for
/// `owner` and `creator`) removed.
pub open spec fn mint_reverted(e0: Env, e1: Env, token_id: TokenId, clip_id: u32, owner: Address, creator: Address) -> bool {
    let p0 = e0.persistent;
    let p1 = e1.persistent;
    &&& e1.timestamp == e0.timestamp
    &&& e1.contract_address == e0.contract_address && e1.auth == e0.auth
    &&& e1.instance == e0.instance
    &&& e1.events == e0.events
    &&& p1.token_owners@ == p0.token_owners@.remove(token_id)
    &&& p1.tokens@ == p0.tokens@.remove(token_id)
    &&& p1.metadata@ == p0.metadata@.remove(token_id)
    &&& p1.royalties@ == p0.royalties@.remove(token_id)
    &&& p1.royalty_percentage@ == p0.royalty_percentage@.remove(token_id)
    &&& p1.royalty_recipient@ == p0.royalty_recipient@.remove(token_id)
    &&& p1.creators@ == p0.creators@.remove(token_id)
    &&& p1.clip_to_token@ == p0.clip_to_token@.remove(clip_id)
    &&& p1.token_clip@ == p0.token_clip@.remove(token_id)
    &&& p1.thumbnails@ == p0.thumbnails@.remove(token_id)
    &&& p1.preview_uris@ == p0.preview_uris@.remove(token_id)
    &&& list_removed(p0.wallet_tokens@, p1.wallet_tokens@, owner, token_id)
    &&& list_removed(p0.owner_tokens@, p1.owner_tokens@, owner, token_id)
    &&& list_removed(p0.creator_tokens@, p1.creator_tokens@, creator, token_id)
    &&& p1 == (PersistentStorage {
        token_owners: p1.token_owners,
        tokens: p1.tokens,
        metadata: p1.metadata,
        royalties: p1.royalties,
        royalty_percentage: p1.royalty_percentage,
        royalty_recipient: p1.royalty_recipient,
        creators: p1.creators,
        creator_tokens: p1.creator_tokens,
        clip_to_token: p1.clip_to_token,
        token_clip: p1.token_clip,
        wallet_tokens: p1.wallet_tokens,
        owner_tokens: p1.owner_tokens,
        thumbnails: p1.thumbnails,
        preview_uris: p1.preview_uris,
        ..p0
    })
}

/// `m1` is `m0` with `token_id` removed from the list of `key`, when it has
/// one.
pub open spec fn list_removed(m0: Map<Address, Vec<TokenId>>, m1: Map<Address, Vec<TokenId>>, key: Address, token_id: TokenId) -> bool {
    if m0.contains_key(key) {
        &&& m1 == m0.insert(key, m1[key])
        &&& m1[key]@ == without(m0[key]@, token_id)
    } else {
        m1 == m0
    }
}

/// Remove every record a mint wrote for `result`'s token: its owner and
/// data records, metadata, royalty records, creator record, clip mapping,
/// media URIs, and its entries in the owner's wallet and portfolio and in
/// `creator`'s portfolio. Counters and events are left alone.
pub fn revert_single_mint(env: &mut Env, result: &MintSuccessResponse, creator: Address)
    ensures
        mint_reverted(*old(env), *final(env), result.token_id, result.clip_id, result.owner, creator),
{
    let token_id = result.token_id;
    let clip_id = result.clip_id;
    let owner = result.owner;
    ownership::index_delete(&mut env.persistent.wallet_tokens, owner, token_id);
    ownership::index_delete(&mut env.persistent.owner_tokens, owner, token_id);
    ownership::index_delete(&mut env.persistent.creator_tokens, creator, token_id);
    env.persistent.creators.remove(&token_id);
    env.persistent.token_clip.remove(&token_id);
    env.persistent.clip_to_token.remove(&clip_id);
    env.persistent.thumbnails.remove(&token_id);
    env.persistent.preview_uris.remove(&token_id);
    env.persistent.royalties.remove(&token_id);
    env.persistent.royalty_percentage.remove(&token_id);
    env.persistent.royalty_recipient.remove(&token_id);
    env.persistent.metadata.remove(&token_id);
    env.persistent.tokens.remove(&token_id);
    env.persistent.token_owners.remove(&token_id);
}

/// Filtering out a token that does not occur leaves a list unchanged.
proof fn lemma_without_absent(s: Seq<TokenId>, t: TokenId)
    requires
        !s.contains(t),
    ensures
        without(s, t) == s,
    decreases s.len(),
{
    if s.len() > 0 {
        let prev = s.drop_last();
        assert(!prev.contains(t)) by {
            if prev.contains(t) {
                let k = choose|k: int| 0 <= k < prev.len() && prev[k] == t;
                assert(s[k] == t);
            }
        }
        lemma_without_absent(prev, t);
        assert(s == prev.push(s.last()));
        prev.lemma_filter_push(s.last(), crate::ownership::other_than(t));
    }
}

/// Whether `token_id` and the clip of `request` are unused in `env`: no
/// per-token record of the token exists, the clip is not mapped, and the
/// owner's and creator's lists exist without the token.
pub open spec fn fresh_for_mint(env: Env, request: MintRequest, token_id: TokenId) -> bool {
    let p = env.persistent;
    let creator = creator_of(request);
    &&& !p.token_owners@.contains_key(token_id)
    &&& !p.tokens@.contains_key(token_id)
    &&& !p.metadata@.contains_key(token_id)
    &&& !p.royalties@.contains_key(token_id)
    &&& !p.royalty_percentage@.contains_key(token_id)
    &&& !p.royalty_recipient@.contains_key(token_id)
    &&& !p.creators@.contains_key(token_id)
    &&& !p.clip_to_token@.contains_key(request.clip_id)
    &&& !p.token_clip@.contains_key(token_id)
    &&& !p.thumbnails@.contains_key(token_id)
    &&& !p.preview_uris@.contains_key(token_id)
    &&& p.wallet_tokens@.contains_key(request.owner) && !p.wallet_tokens@[request.owner]@.contains(token_id)
    &&& p.owner_tokens@.contains_key(request.owner) && !p.owner_tokens@[request.owner]@.contains(token_id)
    &&& p.creator_tokens@.contains_key(creator) && !p.creator_tokens@[creator]@.contains(token_id)
}

/// `m1` agrees with `m0` on every key, comparing lists by their contents.
pub open spec fn lists_agree(m0: Map<Address, Vec<TokenId>>, m1: Map<Address, Vec<TokenId>>) -> bool {
    &&& m1.dom() == m0.dom()
    &&& forall|k: Address| #[trigger] m0.contains_key(k) ==> m1[k]@ == m0[k]@
}

/// Reverting a mint of a fresh token ID and clip restores every per-token
/// record and index that the mint wrote; only the counters and the events
/// keep the mint's trace.
pub proof fn lemma_revert_undoes_mint(e0: Env, e1: Env, e2: Env, request: MintRequest, token_id: TokenId)
    requires
        fresh_for_mint(e0, request, token_id),
        mint_applied(e0, e1, request, token_id),
        mint_reverted(e1, e2, token_id, request.clip_id, request.owner, creator_of(request)),
    ensures
        e2.persistent.token_owners@ == e0.persistent.token_owners@,
        e2.persistent.tokens@ == e0.persistent.tokens@,
        e2.persistent.metadata@ == e0.persistent.metadata@,
        e2.persistent.royalties@ == e0.persistent.royalties@,
        e2.persistent.royalty_percentage@ == e0.persistent.royalty_percentage@,
        e2.persistent.royalty_recipient@ == e0.persistent.royalty_recipient@,
        e2.persistent.creators@ == e0.persistent.creators@,
        e2.persistent.clip_to_token@ == e0.persistent.clip_to_token@,
        e2.persistent.token_clip@ == e0.persistent.token_clip@,
        e2.persistent.thumbnails@ == e0.persistent.thumbnails@,
        e2.persistent.preview_uris@ == e0.persistent.preview_uris@,
        lists_agree(e0.persistent.wallet_tokens@, e2.persistent.wallet_tokens@),
        lists_agree(e0.persistent.owner_tokens@, e2.persistent.owner_tokens@),
        lists_agree(e0.persistent.creator_tokens@, e2.persistent.creator_tokens@),
{
    let p0 = e0.persistent;
    let p1 = e1.persistent;
    let p2 = e2.persistent;
    let owner = request.owner;
    let creator = creator_of(request);
    assert(p2.token_owners@ =~= p0.token_owners@);
    assert(p2.tokens@ =~= p0.tokens@);
    assert(p2.metadata@ =~= p0.metadata@);
    assert(p2.royalties@ =~= p0.royalties@);
    assert(p2.royalty_percentage@ =~= p0.royalty_percentage@);
    assert(p2.royalty_recipient@ =~= p0.royalty_recipient@);
    assert(p2.creators@ =~= p0.creators@);
    assert(p2.clip_to_token@ =~= p0.clip_to_token@);
    assert(p2.token_clip@ =~= p0.token_clip@);
    assert(p2.thumbnails@ =~= p0.thumbnails@) by {
        match request.thumbnail_uri {
            Some(u) => {},
            None => {},
        }
    }
    assert(p2.preview_uris@ =~= p0.preview_uris@) by {
        match request.preview_video_uri {
            Some(u) => {},
            None => {},
        }
    }
    let s = p0.wallet_tokens@[owner]@;
    s.lemma_filter_push(token_id, crate::ownership::other_than(token_id));
    lemma_without_absent(s, token_id);
    assert(p2.wallet_tokens@.dom() =~= p0.wallet_tokens@.dom());
    let o = p0.owner_tokens@[owner]@;
    o.lemma_filter_push(token_id, crate::ownership::other_than(token_id));
    lemma_without_absent(o, token_id);
    assert(p2.owner_tokens@.dom() =~= p0.owner_tokens@.dom());
    let c = p0.creator_tokens@[creator]@;
    c.lemma_filter_push(token_id, crate::ownership::other_than(token_id));
    lemma_without_absent(c, token_id);
    assert(p2.creator_tokens@.dom() =~= p0.creator_tokens@.dom());
}

/// Token IDs are handed out in sequence: after a mint receives `t`, the
/// next mint receives `t + 1` (until the counter is exhausted), and the
/// supply has grown by one.
pub proof fn lemma_mint_ids_sequential(e0: Env, e1: Env, request: MintRequest, token_id: TokenId)
    requires
        token_id == following_token_id(e0),
        mint_applied(e0, e1, request, token_id),
        token_id < u64::MAX,
        total_supply_of(e0) < u64::MAX,
    ensures
        following_token_id(e1) == token_id + 1,
        total_supply_of(e1) == total_supply_of(e0) + 1,
{
}

/// A clip is minted at most once: after a mint, another mint of the same
/// clip fails with [`Error::ClipAlreadyMinted`] unless an earlier check
/// answers first.
pub proof fn lemma_clip_minted_once(e0: Env, e1: Env, request: MintRequest, token_id: TokenId, again: MintRequest)
    requires
        mint_applied(e0, e1, request, token_id),
        again.clip_id == request.clip_id,
    ensures
        mint_error(e1, again, false) is Some,
        again.metadata_uri@.len() > 0 && total_bps(again.royalty_info.recipients@) <= MAX_ROYALTY_BPS
            ==> mint_error(e1, again, false) == Some(Error::ClipAlreadyMinted),
{
    assert(e1.persistent.clip_to_token@.contains_key(request.clip_id));
}

} // verus!
