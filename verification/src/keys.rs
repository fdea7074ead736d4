//! Public keys derived from secret URIs (such as `//Alice`) through `sp-core`.
use vstd::prelude::*;

verus! {

/// The sr25519 public key that the secret URI `uri` derives, or none when `uri` is not a
/// valid secret URI.
pub uninterp spec fn sr25519_public_of(uri: Seq<char>) -> Option<Seq<u8>>;

/// The ed25519 public key that the secret URI `uri` derives, or none when `uri` is not a
/// valid secret URI.
pub uninterp spec fn ed25519_public_of(uri: Seq<char>) -> Option<Seq<u8>>;

/// Derives the sr25519 key pair of the secret URI `uri` and answers its public key
/// (`sp_core::Pair::from_string` on `sp_core::sr25519::Pair`, without a password). The
/// answer depends on `uri` alone; the development URI `//Alice` (the development phrase with
/// one hard junction) always derives a key.
#[verifier::external_body]
pub(crate) fn sr25519_public(uri: &str) -> (r: Option<[u8; 32]>)
    ensures
        match r {
            Some(k) => sr25519_public_of(uri@) == Some(k@),
            None => sr25519_public_of(uri@) is None,
        },
        uri@ == "//Alice"@ ==> r is Some,
{
    match <sp_core::sr25519::Pair as sp_core::Pair>::from_string(uri, None) {
        Ok(pair) => Some(sp_core::Pair::public(&pair).0),
        Err(_) => None,
    }
}

/// Derives the ed25519 key pair of the secret URI `uri` and answers its public key
/// (`sp_core::Pair::from_string` on `sp_core::ed25519::Pair`, without a password). The
/// answer depends on `uri` alone; the development URI `//Alice` (the development phrase with
/// one hard junction, which ed25519 supports) always derives a key.
#[verifier::external_body]
pub(crate) fn ed25519_public(uri: &str) -> (r: Option<[u8; 32]>)
    ensures
        match r {
            Some(k) => ed25519_public_of(uri@) == Some(k@),
            None => ed25519_public_of(uri@) is None,
        },
        uri@ == "//Alice"@ ==> r is Some,
{
    match <sp_core::ed25519::Pair as sp_core::Pair>::from_string(uri, None) {
        Ok(pair) => Some(sp_core::Pair::public(&pair).0),
        Err(_) => None,
    }
}

} // verus!
