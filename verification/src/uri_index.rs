//! The reverse index from metadata URIs to tokens, and the registry of known
//! metadata records. Both are append-only lists; the index answers with the
//! latest entry for a URI.

use vstd::prelude::*;

use crate::bytes::{bytes_eq, copy_bytes};
use crate::env::{Env, PersistentStorage, UriIndexEntry};
use crate::ownership::only_persistent_changed;
use crate::types::TokenId;

verus! {

/// The token the index links `uri` to: the latest entry for it.
pub open spec fn index_lookup(entries: Seq<UriIndexEntry>, uri: Seq<u8>) -> Option<TokenId>
    decreases entries.len(),
{
    if entries.len() == 0 {
        None
    } else if entries.last().uri@ == uri {
        Some(entries.last().token_id)
    } else {
        index_lookup(entries.drop_last(), uri)
    }
}

/// Link `uri` to `token_id` in the index.
pub fn index_uri(env: &mut Env, uri: &Vec<u8>, token_id: TokenId)
    ensures
        index_lookup(final(env).persistent.metadata_index@, uri@) == Some(token_id),
        forall|u: Seq<u8>| u != uri@ ==> #[trigger] index_lookup(final(env).persistent.metadata_index@, u)
            == index_lookup(old(env).persistent.metadata_index@, u),
        final(env).persistent == (PersistentStorage {
            metadata_index: final(env).persistent.metadata_index,
            ..old(env).persistent
        }),
        only_persistent_changed(*old(env), *final(env)),
{
    let ghost before = env.persistent.metadata_index@;
    env.persistent.metadata_index.push(UriIndexEntry { uri: copy_bytes(uri), token_id });
    assert(env.persistent.metadata_index@.drop_last() =~= before);
}

/// The token the index links `uri` to, if any.
pub fn indexed_token(env: &Env, uri: &Vec<u8>) -> (r: Option<TokenId>)
    ensures
        r == index_lookup(env.persistent.metadata_index@, uri@),
{
    let entries = &env.persistent.metadata_index;
    let mut i: usize = entries.len();
    assert(entries@.take(i as int) =~= entries@);
    while i > 0
        invariant
            i <= entries@.len(),
            entries@ == env.persistent.metadata_index@,
            index_lookup(entries@, uri@) == index_lookup(entries@.take(i as int), uri@),
        decreases i,
    {
        let ghost prefix = entries@.take(i as int);
        assert(prefix.drop_last() =~= entries@.take(i - 1));
        let e = &entries[i - 1];
        if bytes_eq(&e.uri, uri) {
            return Some(e.token_id);
        }
        i = i - 1;
    }
    assert(entries@.take(0) =~= Seq::<UriIndexEntry>::empty());
    None
}

/// Whether `uri` is a registered metadata record.
pub open spec fn is_record(records: Seq<Vec<u8>>, uri: Seq<u8>) -> bool {
    exists|i: int| 0 <= i < records.len() && #[trigger] records[i]@ == uri
}

/// Whether `uri` is a registered metadata record.
pub fn record_exists(env: &Env, uri: &Vec<u8>) -> (r: bool)
    ensures
        r == is_record(env.persistent.metadata_records@, uri@),
{
    let records = &env.persistent.metadata_records;
    let n = records.len();
    let mut i: usize = 0;
    while i < n
        invariant
            n == records@.len(),
            records@ == env.persistent.metadata_records@,
            i <= n,
            forall|k: int| 0 <= k < i ==> records@[k]@ != uri@,
        decreases n - i,
    {
        if bytes_eq(&records[i], uri) {
            return true;
        }
        i = i + 1;
    }
    false
}

/// Register `uri` as a metadata record.
pub fn add_record(env: &mut Env, uri: &Vec<u8>)
    ensures
        forall|u: Seq<u8>| #[trigger] is_record(final(env).persistent.metadata_records@, u)
            <==> (is_record(old(env).persistent.metadata_records@, u) || u == uri@),
        final(env).persistent == (PersistentStorage {
            metadata_records: final(env).persistent.metadata_records,
            ..old(env).persistent
        }),
        only_persistent_changed(*old(env), *final(env)),
{
    if !record_exists(env, uri) {
        let ghost before = env.persistent.metadata_records@;
        env.persistent.metadata_records.push(copy_bytes(uri));
        proof {
            let after = env.persistent.metadata_records@;
            assert forall|u: Seq<u8>| #[trigger] is_record(after, u) <==> (is_record(before, u) || u == uri@) by {
                if is_record(before, u) {
                    let k = choose|k: int| 0 <= k < before.len() && #[trigger] before[k]@ == u;
                    assert(after[k]@ == u);
                }
                if u == uri@ {
                    assert(after[before.len() as int]@ == u);
                }
                if is_record(after, u) && u != uri@ {
                    let k = choose|k: int| 0 <= k < after.len() && #[trigger] after[k]@ == u;
                    assert(before[k]@ == u);
                }
            }
        }
    }
}

} // verus!
