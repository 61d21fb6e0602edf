//! Byte-string helpers: textual values (URIs, names, descriptions) are held
//! as their UTF-8 bytes.

use vstd::prelude::*;

verus! {

/// `prefix` is an initial segment of `s`.
pub open spec fn starts_with(s: Seq<u8>, prefix: Seq<u8>) -> bool {
    prefix.len() <= s.len() && s.take(prefix.len() as int) == prefix
}

/// The bytes of `"https://"`.
pub open spec fn https_scheme() -> Seq<u8> {
    seq![104u8, 116u8, 116u8, 112u8, 115u8, 58u8, 47u8, 47u8]
}

/// The bytes of `"ipfs://"`.
pub open spec fn ipfs_scheme() -> Seq<u8> {
    seq![105u8, 112u8, 102u8, 115u8, 58u8, 47u8, 47u8]
}

/// The bytes of `"ar://"`.
pub open spec fn ar_scheme() -> Seq<u8> {
    seq![97u8, 114u8, 58u8, 47u8, 47u8]
}

/// `"https://"` as bytes.
pub fn https_scheme_bytes() -> (r: Vec<u8>)
    ensures
        r@ == https_scheme(),
{
    let r = vec![104u8, 116u8, 116u8, 112u8, 115u8, 58u8, 47u8, 47u8];
    assert(r@ =~= https_scheme());
    r
}

/// `"ipfs://"` as bytes.
pub fn ipfs_scheme_bytes() -> (r: Vec<u8>)
    ensures
        r@ == ipfs_scheme(),
{
    let r = vec![105u8, 112u8, 102u8, 115u8, 58u8, 47u8, 47u8];
    assert(r@ =~= ipfs_scheme());
    r
}

/// `"ar://"` as bytes.
pub fn ar_scheme_bytes() -> (r: Vec<u8>)
    ensures
        r@ == ar_scheme(),
{
    let r = vec![97u8, 114u8, 58u8, 47u8, 47u8];
    assert(r@ =~= ar_scheme());
    r
}

/// Whether `data` begins with `prefix`.
pub fn has_prefix(data: &Vec<u8>, prefix: &Vec<u8>) -> (r: bool)
    ensures
        r == starts_with(data@, prefix@),
{
    if data.len() < prefix.len() {
        return false;
    }
    let n = prefix.len();
    let mut i: usize = 0;
    while i < n
        invariant
            n == prefix@.len(),
            n <= data@.len(),
            i <= n,
            forall|k: int| 0 <= k < i ==> data@[k] == prefix@[k],
        decreases n - i,
    {
        if data[i] != prefix[i] {
            assert(data@.take(n as int)[i as int] != prefix@[i as int]);
            return false;
        }
        i = i + 1;
    }
    assert(data@.take(n as int) =~= prefix@);
    true
}

/// Whether two byte strings are equal.
pub fn bytes_eq(a: &Vec<u8>, b: &Vec<u8>) -> (r: bool)
    ensures
        r == (a@ == b@),
{
    if a.len() != b.len() {
        return false;
    }
    let n = a.len();
    let mut i: usize = 0;
    while i < n
        invariant
            n == a@.len(),
            n == b@.len(),
            i <= n,
            forall|k: int| 0 <= k < i ==> a@[k] == b@[k],
        decreases n - i,
    {
        if a[i] != b[i] {
            return false;
        }
        i = i + 1;
    }
    assert(a@ =~= b@);
    true
}

/// A copy of a byte string.
pub fn copy_bytes(b: &Vec<u8>) -> (r: Vec<u8>)
    ensures
        r@ == b@,
{
    let r = b.clone();
    assert(r@ =~= b@);
    r
}

/// The view of an optional byte string.
pub open spec fn opt_bytes(o: Option<Vec<u8>>) -> Option<Seq<u8>> {
    match o {
        Some(b) => Some(b@),
        None => None,
    }
}

/// A copy of an optional byte string.
pub fn copy_opt_bytes(o: &Option<Vec<u8>>) -> (r: Option<Vec<u8>>)
    ensures
        opt_bytes(r) == opt_bytes(*o),
{
    match o {
        Some(b) => Some(copy_bytes(b)),
        None => None,
    }
}

/// Append all of `src` to `dst`.
pub fn append_bytes(dst: &mut Vec<u8>, src: &Vec<u8>)
    ensures
        final(dst)@ == old(dst)@ + src@,
{
    let n = src.len();
    let mut i: usize = 0;
    while i < n
        invariant
            n == src@.len(),
            i <= n,
            dst@ == old(dst)@ + src@.take(i as int),
        decreases n - i,
    {
        dst.push(src[i]);
        assert(src@.take(i + 1) =~= src@.take(i as int).push(src@[i as int]));
        i = i + 1;
    }
    assert(src@.take(n as int) =~= src@);
}

} // verus!
