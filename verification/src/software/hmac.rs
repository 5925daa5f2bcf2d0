//! Message authentication by HMAC.
use crate::algorithm::HashAlgorithm;
use crate::digest::{compute_hmac, constant_time_eq, hmac_of};
use crate::error::{outcome, view_outcome, Error, ErrorView, Result};
use crate::key::SoftwareKey;
use vstd::prelude::*;

verus! {

/// The outcome of authentication.
pub open spec fn hmac_sign_outcome(
    hash: HashAlgorithm,
    key: SoftwareKey,
    data: Seq<u8>,
) -> core::result::Result<Seq<u8>, ErrorView> {
    match key {
        SoftwareKey::Hmac(key_bytes) => Ok(hmac_of(hash, key_bytes@, data)),
        _ => Err(ErrorView::Key("HMAC key required"@)),
    }
}

/// Computes the authentication code of `data`.
pub fn hmac_sign(key: &SoftwareKey, hash: HashAlgorithm, data: &[u8]) -> (r: Result<Vec<u8>>)
    ensures
        view_outcome(r) == hmac_sign_outcome(hash, *key, data@),
        r matches Ok(mac) ==> mac@.len() == hash.output_len(),
{
    match key {
        SoftwareKey::Hmac(key_bytes) => Ok(compute_hmac(hash, key_bytes.as_slice(), data)),
        _ => Err(Error::Key("HMAC key required".to_owned())),
    }
}

/// The answer of verification: whether `sig` is the code of `data`.
pub open spec fn hmac_verify_outcome(
    hash: HashAlgorithm,
    key: SoftwareKey,
    data: Seq<u8>,
    sig: Seq<u8>,
) -> core::result::Result<bool, ErrorView> {
    match key {
        SoftwareKey::Hmac(key_bytes) => Ok(sig == hmac_of(hash, key_bytes@, data)),
        _ => Err(ErrorView::Key("HMAC key required"@)),
    }
}

/// Verifies an authentication code.
pub fn hmac_verify(key: &SoftwareKey, hash: HashAlgorithm, data: &[u8], sig_bytes: &[u8]) -> (r: Result<
    bool,
>)
    ensures
        outcome(r) == hmac_verify_outcome(hash, *key, data@, sig_bytes@),
{
    match key {
        SoftwareKey::Hmac(key_bytes) => {
            let expected: Vec<u8> = compute_hmac(hash, key_bytes.as_slice(), data);
            Ok(constant_time_eq(expected.as_slice(), sig_bytes))
        },
        _ => Err(Error::Key("HMAC key required".to_owned())),
    }
}

} // verus!
