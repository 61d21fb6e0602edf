//! Validation of mint requests, singly and in batches, before any state is
//! written.

use vstd::prelude::*;

use crate::controls;
use crate::guards::royalty::validate_royalty_recipient;
use crate::env::Env;
use crate::metadata_uri_builder::{uri_check, validate_uri};
use crate::mint_request::{batch_limit, batch_size_ok, BatchMintRequest, MintRequest};
use crate::token_records;
use crate::types::{royalty_valid, validate_royalty, Address, Error, Royalty};

verus! {

/// Outcome of [`validate_mint`].
pub open spec fn mint_check(env: Env, clip_id: u32, metadata_uri: Seq<u8>, royalty: Royalty, owner: Address) -> Result<(), Error> {
    if env.persistent.clip_to_token@.contains_key(clip_id) {
        Err(Error::ClipAlreadyMinted)
    } else if metadata_uri.len() == 0 {
        Err(Error::InvalidURI)
    } else if env.persistent.blacklisted@.contains(owner) {
        Err(Error::Unauthorized)
    } else if !royalty_valid(royalty.recipients@) {
        Err(Error::InvalidBasisPoints)
    } else {
        Ok(())
    }
}

/// Check a mint: the clip is not minted yet, the metadata URI is not empty,
/// the owner is not blacklisted, and the royalty has at least one recipient,
/// no share above 10 000 bps and a total of at most 10 000 bps.
pub fn validate_mint(env: &Env, clip_id: u32, metadata_uri: &Vec<u8>, royalty: &Royalty, owner: Address) -> (r: Result<(), Error>)
    ensures
        r == mint_check(*env, clip_id, metadata_uri@, *royalty, owner),
{
    if token_records::is_clip_mapped(env, clip_id) {
        return Err(Error::ClipAlreadyMinted);
    }
    if metadata_uri.len() == 0 {
        return Err(Error::InvalidURI);
    }
    if controls::is_blacklisted(env, owner) {
        return Err(Error::Unauthorized);
    }
    match validate_royalty(royalty) {
        Ok(()) => Ok(()),
        Err(e) => Err(e),
    }
}

/// Outcome of [`validate_owner`].
pub open spec fn owner_check(env: Env, owner: Address) -> Result<(), Error> {
    if owner == env.contract_address { Err(Error::InvalidAddress) } else { Ok(()) }
}

/// An account that may hold or create tokens: anything but the contract
/// itself.
///
/// # Errors
/// [`Error::InvalidAddress`] when `owner` is the contract's address.
pub fn validate_owner(env: &Env, owner: Address) -> (r: Result<(), Error>)
    ensures
        r == owner_check(*env, owner),
{
    if owner == env.contract_address {
        Err(Error::InvalidAddress)
    } else {
        Ok(())
    }
}

/// Whether an optional URI, when present, is rejected.
pub open spec fn optional_uri_rejected(uri: Option<Vec<u8>>) -> bool {
    match uri {
        Some(u) => uri_check(u@) is Err,
        None => false,
    }
}

/// Outcome of [`validate_mint_request`].
pub open spec fn request_check(env: Env, request: MintRequest) -> Result<(), Error> {
    if owner_check(env, request.owner) is Err {
        Err(Error::InvalidAddress)
    } else if env.persistent.blacklisted@.contains(request.owner) {
        Err(Error::Unauthorized)
    } else if request.creator_address matches Some(c) && owner_check(env, c) is Err {
        Err(Error::InvalidAddress)
    } else if request.creator_address matches Some(c) && env.persistent.blacklisted@.contains(c) {
        Err(Error::Unauthorized)
    } else if env.persistent.clip_to_token@.contains_key(request.clip_id) {
        Err(Error::ClipAlreadyMinted)
    } else if request.metadata_uri@.len() == 0 || uri_check(request.metadata_uri@) is Err {
        Err(Error::InvalidURI)
    } else if optional_uri_rejected(request.thumbnail_uri) || optional_uri_rejected(request.preview_video_uri) {
        Err(Error::InvalidURI)
    } else if !royalty_valid(request.royalty_info.recipients@) {
        Err(Error::InvalidBasisPoints)
    } else {
        Ok(())
    }
}

/// Validate an optional URI.
fn validate_optional_uri(uri: &Option<Vec<u8>>) -> (r: Result<(), Error>)
    ensures
        r is Err <==> optional_uri_rejected(*uri),
        r is Err ==> r == Err::<(), Error>(Error::InvalidURI),
{
    match uri {
        Some(u) => validate_uri(u),
        None => Ok(()),
    }
}

/// Check a full mint request, in order: the owner and the optional creator
/// are valid accounts and not blacklisted; the clip is not minted yet; the
/// metadata URI and the optional media URIs are non-empty with a supported
/// scheme; and the royalty is valid.
pub fn validate_mint_request(env: &Env, request: &MintRequest) -> (r: Result<(), Error>)
    ensures
        r == request_check(*env, *request),
{
    validate_owner(env, request.owner)?;
    if controls::is_blacklisted(env, request.owner) {
        return Err(Error::Unauthorized);
    }
    if let Some(creator) = request.creator_address {
        validate_owner(env, creator)?;
        if controls::is_blacklisted(env, creator) {
            return Err(Error::Unauthorized);
        }
    }
    if token_records::is_clip_mapped(env, request.clip_id) {
        return Err(Error::ClipAlreadyMinted);
    }
    if request.metadata_uri.len() == 0 {
        return Err(Error::InvalidURI);
    }
    validate_uri(&request.metadata_uri)?;
    validate_optional_uri(&request.thumbnail_uri)?;
    validate_optional_uri(&request.preview_video_uri)?;
    let n = request.royalty_info.recipients.len();
    let mut i: usize = 0;
    while i < n
        invariant
            n == request.royalty_info.recipients@.len(),
            i <= n,
        decreases n - i,
    {
        validate_royalty_recipient(env, request.royalty_info.recipients[i].recipient)?;
        i = i + 1;
    }
    match validate_royalty(&request.royalty_info) {
        Ok(()) => Ok(()),
        Err(e) => Err(e),
    }
}

/// Whether the clip of request `i` also appears in an earlier request.
pub open spec fn repeats_earlier_clip(requests: Seq<MintRequest>, i: int) -> bool {
    exists|k: int| 0 <= k < i && #[trigger] requests[k].clip_id == requests[i].clip_id
}

/// Outcome of checking the requests of a batch one by one.
pub open spec fn items_check(env: Env, requests: Seq<MintRequest>) -> Result<(), Error>
    decreases requests.len(),
{
    if requests.len() == 0 {
        Ok(())
    } else {
        match items_check(env, requests.drop_last()) {
            Err(e) => Err(e),
            Ok(_) => if repeats_earlier_clip(requests, requests.len() - 1) {
                Err(Error::ClipAlreadyMinted)
            } else {
                request_check(env, requests.last())
            },
        }
    }
}

/// Outcome of [`validate_batch_mint`].
pub open spec fn batch_check(env: Env, requests: Seq<MintRequest>) -> Result<(), Error> {
    if !batch_size_ok(requests.len() as int, batch_limit(env) as int) {
        Err(Error::InvalidConfig)
    } else {
        items_check(env, requests)
    }
}

/// Whether `clips[..]` contains `clip_id`.
fn contains_clip(clips: &Vec<u32>, clip_id: u32) -> (r: bool)
    ensures
        r == clips@.contains(clip_id),
{
    let n = clips.len();
    let mut i: usize = 0;
    while i < n
        invariant
            n == clips@.len(),
            i <= n,
            forall|k: int| 0 <= k < i ==> clips@[k] != clip_id,
        decreases n - i,
    {
        if clips[i] == clip_id {
            return true;
        }
        i = i + 1;
    }
    false
}

/// An error on a prefix of the batch is the error on the whole batch.
proof fn lemma_items_err_extends(env: Env, requests: Seq<MintRequest>, i: int, e: Error)
    requires
        0 <= i <= requests.len(),
        items_check(env, requests.take(i)) == Err::<(), Error>(e),
    ensures
        items_check(env, requests) == Err::<(), Error>(e),
    decreases requests.len() - i,
{
    if i == requests.len() {
        assert(requests.take(i) =~= requests);
    } else {
        let cur = requests.take(i + 1);
        assert(cur.drop_last() =~= requests.take(i));
        lemma_items_err_extends(env, requests, i + 1, e);
    }
}

/// Validate a whole batch before anything is minted: its size, then for
/// each request in order, that its clip does not repeat an earlier request's
/// and that the request itself is valid.
pub fn validate_batch_mint(env: &Env, batch: &BatchMintRequest) -> (r: Result<(), Error>)
    ensures
        r == batch_check(*env, batch.requests@),
{
    batch.validate_against_env(env)?;
    let n = batch.requests.len();
    let mut seen: Vec<u32> = Vec::new();
    let mut i: usize = 0;
    while i < n
        invariant
            n == batch.requests@.len(),
            i <= n,
            seen@.len() == i,
            batch_size_ok(n as int, batch_limit(*env) as int),
            forall|k: int| 0 <= k < i ==> seen@[k] == #[trigger] batch.requests@[k].clip_id,
            items_check(*env, batch.requests@.take(i as int)) == Ok::<(), Error>(()),
        decreases n - i,
    {
        let ghost reqs = batch.requests@;
        let ghost cur = reqs.take(i + 1);
        assert(cur.drop_last() =~= reqs.take(i as int));
        assert(cur.last() == reqs[i as int]);
        let request = &batch.requests[i];
        let dup = contains_clip(&seen, request.clip_id);
        proof {
            assert(repeats_earlier_clip(cur, i as int) == dup) by {
                if dup {
                    let k = choose|k: int| 0 <= k < seen@.len() && seen@[k] == request.clip_id;
                    assert(cur[k] == reqs[k]);
                    assert(cur[k].clip_id == cur[i as int].clip_id);
                }
                if repeats_earlier_clip(cur, i as int) {
                    let k = choose|k: int| 0 <= k < i && #[trigger] cur[k].clip_id == cur[i as int].clip_id;
                    assert(cur[k] == reqs[k]);
                    assert(seen@[k] == request.clip_id);
                }
            }
        }
        if dup {
            proof {
                lemma_items_err_extends(*env, reqs, i + 1, Error::ClipAlreadyMinted);
            }
            return Err(Error::ClipAlreadyMinted);
        }
        seen.push(request.clip_id);
        match validate_mint_request(env, request) {
            Ok(()) => {},
            Err(e) => {
                proof {
                    lemma_items_err_extends(*env, reqs, i + 1, e);
                }
                return Err(e);
            },
        }
        i = i + 1;
    }
    assert(batch.requests@.take(n as int) =~= batch.requests@);
    Ok(())
}

/// A mint request whose metadata URI begins with `https://` passes the
/// URI check just as one with `ipfs://` or `ar://` does: when the owner is
/// an account other than the contract and not blacklisted, no creator is
/// named, the clip is unminted, no media URIs are given and the royalty is
/// valid, the request is accepted, and so is a batch of that one request.
pub proof fn lemma_https_mint_request_accepted(env: Env, request: MintRequest)
    requires
        request.owner != env.contract_address,
        !env.persistent.blacklisted@.contains(request.owner),
        request.creator_address is None,
        !env.persistent.clip_to_token@.contains_key(request.clip_id),
        request.metadata_uri@.len() >= 8,
        request.metadata_uri@.take(8) == seq![104u8, 116u8, 116u8, 112u8, 115u8, 58u8, 47u8, 47u8],
        request.thumbnail_uri is None,
        request.preview_video_uri is None,
        royalty_valid(request.royalty_info.recipients@),
    ensures
        request_check(env, request) == Ok::<(), Error>(()),
        batch_limit(env) >= 1 ==> batch_check(env, seq![request]) == Ok::<(), Error>(()),
{
    crate::metadata_uri_builder::lemma_supported_schemes_accepted(request.metadata_uri@);
    let s = seq![request];
    assert(s.len() == 1);
    assert(s.last() == request);
    assert(s.drop_last() =~= Seq::<MintRequest>::empty());
    assert(items_check(env, s.drop_last()) == Ok::<(), Error>(()));
    assert(!repeats_earlier_clip(s, 0));
    assert(items_check(env, s) == Ok::<(), Error>(()));
    assert(batch_size_ok(1, batch_limit(env) as int) == (batch_limit(env) >= 1)) by {
        assert(crate::config::MIN_BATCH_MINT_SIZE == 1);
    }
}

} // verus!
