//! Metadata URI helpers: scheme checks and IPFS URI construction.

use vstd::prelude::*;

use crate::env::Env;

use crate::bytes::{append_bytes, ar_scheme, ar_scheme_bytes, has_prefix, https_scheme, https_scheme_bytes,
    ipfs_scheme, ipfs_scheme_bytes, starts_with};
use crate::types::Error;

verus! {

/// Whether `uri` begins with `prefix`.
pub fn starts_with_bytes(uri: &Vec<u8>, prefix: &Vec<u8>) -> (r: bool)
    ensures
        r == starts_with(uri@, prefix@),
{
    has_prefix(uri, prefix)
}

/// Whether `uri` is an IPFS URI (begins with `ipfs://`).
pub fn is_ipfs(uri: &Vec<u8>) -> (r: bool)
    ensures
        r == starts_with(uri@, ipfs_scheme()),
{
    uri.len() >= 7 && starts_with_bytes(uri, &ipfs_scheme_bytes())
}

/// Whether `uri` begins with one of the accepted schemes.
pub open spec fn has_supported_scheme(uri: Seq<u8>) -> bool {
    starts_with(uri, ipfs_scheme()) || starts_with(uri, https_scheme()) || starts_with(uri, ar_scheme())
}

/// Outcome of [`validate_uri`].
pub open spec fn uri_check(uri: Seq<u8>) -> Result<(), Error> {
    if uri.len() == 0 || !has_supported_scheme(uri) {
        Err(Error::InvalidURI)
    } else {
        Ok(())
    }
}

/// Accept a non-empty URI that begins with `ipfs://`, `https://` or `ar://`.
///
/// # Errors
/// [`Error::InvalidURI`] otherwise.
pub fn validate_uri(uri: &Vec<u8>) -> (r: Result<(), Error>)
    ensures
        r == uri_check(uri@),
{
    if uri.len() == 0 {
        return Err(Error::InvalidURI);
    }
    if starts_with_bytes(uri, &ipfs_scheme_bytes()) || starts_with_bytes(uri, &https_scheme_bytes())
        || starts_with_bytes(uri, &ar_scheme_bytes()) {
        Ok(())
    } else {
        Err(Error::InvalidURI)
    }
}

/// `ipfs://` followed by `cid`.
pub fn build_ipfs_uri(env: &Env, cid: &Vec<u8>) -> (r: Vec<u8>)
    ensures
        r@ == ipfs_scheme() + cid@,
{
    let mut r = ipfs_scheme_bytes();
    append_bytes(&mut r, cid);
    r
}

/// Every non-empty URI that begins with `https://`, `ipfs://` or `ar://` is
/// accepted, whatever follows the scheme; one that begins with none of them
/// is refused.
pub proof fn lemma_supported_schemes_accepted(uri: Seq<u8>)
    ensures
        uri.len() >= 8 && uri.take(8) == seq![104u8, 116u8, 116u8, 112u8, 115u8, 58u8, 47u8, 47u8] ==> uri_check(uri)
            == Ok::<(), Error>(()),
        uri.len() >= 7 && uri.take(7) == seq![105u8, 112u8, 102u8, 115u8, 58u8, 47u8, 47u8] ==> uri_check(uri)
            == Ok::<(), Error>(()),
        uri.len() >= 5 && uri.take(5) == seq![97u8, 114u8, 58u8, 47u8, 47u8] ==> uri_check(uri) == Ok::<(), Error>(()),
        uri.len() == 0 ==> uri_check(uri) == Err::<(), Error>(Error::InvalidURI),
{
}

} // verus!
