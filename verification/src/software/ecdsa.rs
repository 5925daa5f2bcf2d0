//! ECDSA over the NIST prime curves.
use crate::algorithm::{EcCurve, HashAlgorithm};
use crate::bytes::{be_value, zero_padded};
use crate::digest::{digest, hash_of, pad_prehash};
use crate::error::{crypto_reply, outcome, view_outcome, Error, ErrorView, Result};
use crate::key::{
    ec_point, ec_public_point, is_ec_scalar, P256VerifyingKey, P384VerifyingKey, P521VerifyingKey,
    SoftwareKey,
};
use crate::text::join3;
use vstd::prelude::*;

verus! {

/// Whether `sig` is the encoding of a signature: `r` and `s`, one field length
/// each, both from 1 up to the order.
pub open spec fn is_ecdsa_signature(curve: EcCurve, sig: Seq<u8>) -> bool {
    let n = curve.field_len() as int;
    &&& sig.len() == 2 * n
    &&& 0 < be_value(sig.subrange(0, n)) < curve.order()
    &&& 0 < be_value(sig.subrange(n, 2 * n)) < curve.order()
}

/// What `sign_prehash` of the P-256 or P-384 signing key `scalar` gives for
/// `prehash`: its nonce follows from key and hash. `None` where it fails.
pub uninterp spec fn ecdsa_signature(
    curve: EcCurve,
    scalar: Seq<u8>,
    prehash: Seq<u8>,
) -> Option<Seq<u8>>;

/// Whether `verify_prehash` of the curve's verifying key `point` accepts `sig`
/// for `prehash`.
pub uninterp spec fn ecdsa_accepts(
    curve: EcCurve,
    point: Seq<u8>,
    prehash: Seq<u8>,
    sig: Seq<u8>,
) -> bool;

/// The value of a call that can fail.
pub open spec fn success(r: core::result::Result<Vec<u8>, String>) -> Option<Seq<u8>> {
    match r {
        Ok(v) => Some(v@),
        Err(_) => None,
    }
}

/// Calls `p256::ecdsa::Signature::from_slice`, and `to_bytes` on what it gives.
/// Claims that exactly the encodings of [`is_ecdsa_signature`] are read, each as
/// itself, and what the error's text is.
#[verifier::external_body]
fn p256_signature_from_slice(bytes: &[u8]) -> (r: core::result::Result<Vec<u8>, String>)
    ensures
        r is Ok <==> is_ecdsa_signature(EcCurve::P256, bytes@),
        r matches Ok(sig) ==> sig@ == bytes@,
        r matches Err(e) ==> e@ == "signature error"@,
{
    p256::ecdsa::Signature::from_slice(bytes)
        .map(|sig| sig.to_bytes().to_vec())
        .map_err(|e| e.to_string())
}

/// Calls `sign_prehash` on a `p256::ecdsa::SigningKey`. Claims that the outcome
/// is a function of key and hash, that a signature is well formed and accepted
/// under the key's public key, and what the error's text is.
#[verifier::external_body]
fn p256_sign_prehash(scalar: &[u8], prehash: &[u8]) -> (r: core::result::Result<Vec<u8>, String>)
    requires
        is_ec_scalar(EcCurve::P256, scalar@),
    ensures
        success(r) == ecdsa_signature(EcCurve::P256, scalar@, prehash@),
        r matches Ok(sig) ==> is_ecdsa_signature(EcCurve::P256, sig@),
        r matches Ok(sig) ==> ecdsa_accepts(
            EcCurve::P256,
            ec_public_point(EcCurve::P256, scalar@),
            prehash@,
            sig@,
        ),
        r matches Err(e) ==> e@ == "signature error"@,
{
    let key = p256::ecdsa::SigningKey::from_slice(scalar).unwrap();
    signature::hazmat::PrehashSigner::<p256::ecdsa::Signature>::sign_prehash(&key, prehash)
        .map(|sig| sig.to_bytes().to_vec())
        .map_err(|e| e.to_string())
}

/// Calls `verify_prehash` on a `p256::ecdsa::VerifyingKey`. Claims that the
/// answer is a function of key, hash and signature.
#[verifier::external_body]
fn p256_verify_prehash(point: &[u8], prehash: &[u8], sig: &[u8]) -> (r: bool)
    requires
        ec_point(EcCurve::P256, point@) == Some(point@),
        is_ecdsa_signature(EcCurve::P256, sig@),
    ensures
        r == ecdsa_accepts(EcCurve::P256, point@, prehash@, sig@),
{
    let key = p256::ecdsa::VerifyingKey::from_sec1_bytes(point).unwrap();
    let sig = p256::ecdsa::Signature::from_slice(sig).unwrap();
    signature::hazmat::PrehashVerifier::verify_prehash(&key, prehash, &sig).is_ok()
}

/// Calls `p384::ecdsa::Signature::from_slice`, and `to_bytes` on what it gives.
/// Claims that exactly the encodings of [`is_ecdsa_signature`] are read, each as
/// itself, and what the error's text is.
#[verifier::external_body]
fn p384_signature_from_slice(bytes: &[u8]) -> (r: core::result::Result<Vec<u8>, String>)
    ensures
        r is Ok <==> is_ecdsa_signature(EcCurve::P384, bytes@),
        r matches Ok(sig) ==> sig@ == bytes@,
        r matches Err(e) ==> e@ == "signature error"@,
{
    p384::ecdsa::Signature::from_slice(bytes)
        .map(|sig| sig.to_bytes().to_vec())
        .map_err(|e| e.to_string())
}

/// Calls `sign_prehash` on a `p384::ecdsa::SigningKey`. Claims that the outcome
/// is a function of key and hash, that a signature is well formed and accepted
/// under the key's public key, and what the error's text is.
#[verifier::external_body]
fn p384_sign_prehash(scalar: &[u8], prehash: &[u8]) -> (r: core::result::Result<Vec<u8>, String>)
    requires
        is_ec_scalar(EcCurve::P384, scalar@),
    ensures
        success(r) == ecdsa_signature(EcCurve::P384, scalar@, prehash@),
        r matches Ok(sig) ==> is_ecdsa_signature(EcCurve::P384, sig@),
        r matches Ok(sig) ==> ecdsa_accepts(
            EcCurve::P384,
            ec_public_point(EcCurve::P384, scalar@),
            prehash@,
            sig@,
        ),
        r matches Err(e) ==> e@ == "signature error"@,
{
    let key = p384::ecdsa::SigningKey::from_slice(scalar).unwrap();
    signature::hazmat::PrehashSigner::<p384::ecdsa::Signature>::sign_prehash(&key, prehash)
        .map(|sig| sig.to_bytes().to_vec())
        .map_err(|e| e.to_string())
}

/// Calls `verify_prehash` on a `p384::ecdsa::VerifyingKey`. Claims that the
/// answer is a function of key, hash and signature.
#[verifier::external_body]
fn p384_verify_prehash(point: &[u8], prehash: &[u8], sig: &[u8]) -> (r: bool)
    requires
        ec_point(EcCurve::P384, point@) == Some(point@),
        is_ecdsa_signature(EcCurve::P384, sig@),
    ensures
        r == ecdsa_accepts(EcCurve::P384, point@, prehash@, sig@),
{
    let key = p384::ecdsa::VerifyingKey::from_sec1_bytes(point).unwrap();
    let sig = p384::ecdsa::Signature::from_slice(sig).unwrap();
    signature::hazmat::PrehashVerifier::verify_prehash(&key, prehash, &sig).is_ok()
}

/// Calls `p521::ecdsa::Signature::from_slice`, and `to_bytes` on what it gives.
/// Claims that exactly the encodings of [`is_ecdsa_signature`] are read, each as
/// itself, and what the error's text is.
#[verifier::external_body]
fn p521_signature_from_slice(bytes: &[u8]) -> (r: core::result::Result<Vec<u8>, String>)
    ensures
        r is Ok <==> is_ecdsa_signature(EcCurve::P521, bytes@),
        r matches Ok(sig) ==> sig@ == bytes@,
        r matches Err(e) ==> e@ == "signature error"@,
{
    p521::ecdsa::Signature::from_slice(bytes)
        .map(|sig| sig.to_bytes().to_vec())
        .map_err(|e| e.to_string())
}

/// Calls `sign_prehash` on a `p521::ecdsa::SigningKey`, which draws its nonce
/// from the system's random numbers. Claims that a signature is well formed and
/// accepted under the key's public key, and what the error's text is.
///
/// The crate reduces a hash by at most one subtraction of the order, so the hash
/// must start with two zero bytes: it is then below the order.
#[verifier::external_body]
fn p521_sign_prehash(scalar: &[u8], prehash: &[u8]) -> (r: core::result::Result<Vec<u8>, String>)
    requires
        is_ec_scalar(EcCurve::P521, scalar@),
        prehash@.len() == EcCurve::P521.field_len(),
        prehash@[0] == 0 && prehash@[1] == 0,
    ensures
        r matches Ok(sig) ==> is_ecdsa_signature(EcCurve::P521, sig@),
        r matches Ok(sig) ==> ecdsa_accepts(
            EcCurve::P521,
            ec_public_point(EcCurve::P521, scalar@),
            prehash@,
            sig@,
        ),
        r matches Err(e) ==> e@ == "signature error"@,
{
    let key = p521::ecdsa::SigningKey::from_slice(scalar).unwrap();
    signature::hazmat::PrehashSigner::<p521::ecdsa::Signature>::sign_prehash(&key, prehash)
        .map(|sig| sig.to_bytes().to_vec())
        .map_err(|e| e.to_string())
}

/// Calls `verify_prehash` on a `p521::ecdsa::VerifyingKey`. Claims that the
/// answer is a function of key, hash and signature.
#[verifier::external_body]
fn p521_verify_prehash(point: &[u8], prehash: &[u8], sig: &[u8]) -> (r: bool)
    requires
        ec_point(EcCurve::P521, point@) == Some(point@),
        is_ecdsa_signature(EcCurve::P521, sig@),
    ensures
        r == ecdsa_accepts(EcCurve::P521, point@, prehash@, sig@),
{
    let key = p521::ecdsa::VerifyingKey::from_sec1_bytes(point).unwrap();
    let sig = p521::ecdsa::Signature::from_slice(sig).unwrap();
    signature::hazmat::PrehashVerifier::verify_prehash(&key, prehash, &sig).is_ok()
}

/// The private key of `curve` inside `key`, if there is one.
pub open spec fn ec_private(curve: EcCurve, key: SoftwareKey) -> Option<Seq<u8>> {
    match (curve, key) {
        (EcCurve::P256, SoftwareKey::EcP256 { private: Some(sk), .. }) => Some(sk@),
        (EcCurve::P384, SoftwareKey::EcP384 { private: Some(sk), .. }) => Some(sk@),
        (EcCurve::P521, SoftwareKey::EcP521 { private: Some(sk), .. }) => Some(sk@),
        _ => None,
    }
}

/// The public key of `curve` that `key` verifies with: that of its private key
/// where it has one, else the stored one.
pub open spec fn ec_public(curve: EcCurve, key: SoftwareKey) -> Option<Seq<u8>> {
    match ec_private(curve, key) {
        Some(scalar) => Some(ec_public_point(curve, scalar)),
        None => match (curve, key) {
            (EcCurve::P256, SoftwareKey::EcP256 { public, .. }) => Some(public@),
            (EcCurve::P384, SoftwareKey::EcP384 { public, .. }) => Some(public@),
            (EcCurve::P521, SoftwareKey::EcP521 { public, .. }) => Some(public@),
            _ => None,
        },
    }
}

/// The bytes that are signed for `data`: its hash, with zeros in front up to the
/// field length.
pub open spec fn ecdsa_prehash(curve: EcCurve, hash: HashAlgorithm, data: Seq<u8>) -> Seq<u8> {
    zero_padded(hash_of(hash, data), curve.field_len())
}

/// How a failure to sign is introduced.
pub open spec fn ecdsa_sign_label(curve: EcCurve) -> Seq<char> {
    match curve {
        EcCurve::P256 => "ECDSA P-256 sign: "@,
        EcCurve::P384 => "ECDSA P-384 sign: "@,
        EcCurve::P521 => "ECDSA P-521 sign: "@,
    }
}

/// How a malformed signature is introduced.
pub open spec fn ecdsa_parse_label(curve: EcCurve) -> Seq<char> {
    match curve {
        EcCurve::P256 => "invalid P-256 signature: "@,
        EcCurve::P384 => "invalid P-384 signature: "@,
        EcCurve::P521 => "invalid P-521 signature: "@,
    }
}

/// The possible outcomes of signing. P-256 and P-384 signatures follow from key
/// and data; a P-521 signature has a random nonce. Each is accepted under the
/// key's public key.
pub open spec fn ecdsa_sign_outcome(
    curve: EcCurve,
    hash: HashAlgorithm,
    key: SoftwareKey,
    data: Seq<u8>,
    r: core::result::Result<Seq<u8>, ErrorView>,
) -> bool {
    let prehash = ecdsa_prehash(curve, hash, data);
    match ec_private(curve, key) {
        Some(scalar) => {
            &&& curve != EcCurve::P521 ==> r.ok() == ecdsa_signature(curve, scalar, prehash)
            &&& match r {
                Ok(sig) => {
                    &&& is_ecdsa_signature(curve, sig)
                    &&& ecdsa_accepts(curve, ec_public_point(curve, scalar), prehash, sig)
                },
                Err(e) => e == ErrorView::Crypto(ecdsa_sign_label(curve) + "signature error"@),
            }
        },
        None => r == core::result::Result::<Seq<u8>, ErrorView>::Err(
            ErrorView::Key(
                "ECDSA "@ + curve.debug_text() + " private key required for signing"@,
            ),
        ),
    }
}

/// Signs the hash of `data`. The signature is `r` and `s`, one field length
/// each.
pub fn ecdsa_sign(key: &SoftwareKey, curve: EcCurve, hash: HashAlgorithm, data: &[u8]) -> (r: Result<
    Vec<u8>,
>)
    ensures
        ecdsa_sign_outcome(curve, hash, *key, data@, view_outcome(r)),
{
    let raw_hash: Vec<u8> = digest(hash, data);
    match (curve, key) {
        (EcCurve::P256, SoftwareKey::EcP256 { private: Some(sk), .. }) => {
            let prehash: Vec<u8> = pad_prehash(raw_hash.as_slice(), 32);
            crypto_reply(
                "ECDSA P-256 sign: ",
                p256_sign_prehash(sk.as_bytes(), prehash.as_slice()),
            )
        },
        (EcCurve::P384, SoftwareKey::EcP384 { private: Some(sk), .. }) => {
            let prehash: Vec<u8> = pad_prehash(raw_hash.as_slice(), 48);
            crypto_reply(
                "ECDSA P-384 sign: ",
                p384_sign_prehash(sk.as_bytes(), prehash.as_slice()),
            )
        },
        (EcCurve::P521, SoftwareKey::EcP521 { private: Some(sk), .. }) => {
            let prehash: Vec<u8> = pad_prehash(raw_hash.as_slice(), 66);
            crypto_reply(
                "ECDSA P-521 sign: ",
                p521_sign_prehash(sk.as_bytes(), prehash.as_slice()),
            )
        },
        _ => Err(
            Error::Key(join3("ECDSA ", curve.debug_name(), " private key required for signing")),
        ),
    }
}

/// Reads a signature from `r` and `s`, one field length each.
pub fn raw_to_ecdsa_sig(curve: EcCurve, rs: &[u8]) -> (r: Result<Vec<u8>>)
    ensures
        view_outcome(r) == (if is_ecdsa_signature(curve, rs@) {
            Ok(rs@)
        } else {
            Err(ErrorView::Crypto(ecdsa_parse_label(curve) + "signature error"@))
        }),
{
    let (label, parsed): (&str, core::result::Result<Vec<u8>, String>) = match curve {
        EcCurve::P256 => ("invalid P-256 signature: ", p256_signature_from_slice(rs)),
        EcCurve::P384 => ("invalid P-384 signature: ", p384_signature_from_slice(rs)),
        EcCurve::P521 => ("invalid P-521 signature: ", p521_signature_from_slice(rs)),
    };
    crypto_reply(label, parsed)
}

/// The answer of verification.
pub open spec fn ecdsa_verify_outcome(
    curve: EcCurve,
    hash: HashAlgorithm,
    key: SoftwareKey,
    data: Seq<u8>,
    sig: Seq<u8>,
) -> core::result::Result<bool, ErrorView> {
    match ec_public(curve, key) {
        Some(point) => if is_ecdsa_signature(curve, sig) {
            Ok(ecdsa_accepts(curve, point, ecdsa_prehash(curve, hash, data), sig))
        } else {
            Err(ErrorView::Crypto(ecdsa_parse_label(curve) + "signature error"@))
        },
        None => Err(
            ErrorView::Key("ECDSA "@ + curve.debug_text() + " key required for verification"@),
        ),
    }
}

/// Verifies a signature over the hash of `data`.
pub fn ecdsa_verify(
    key: &SoftwareKey,
    curve: EcCurve,
    hash: HashAlgorithm,
    data: &[u8],
    sig_bytes: &[u8],
) -> (r: Result<bool>)
    ensures
        outcome(r) == ecdsa_verify_outcome(curve, hash, *key, data@, sig_bytes@),
{
    let raw_hash: Vec<u8> = digest(hash, data);
    match (curve, key) {

        (EcCurve::P256, SoftwareKey::EcP256 { private: Some(sk), .. }) => {
            let prehash: Vec<u8> = pad_prehash(raw_hash.as_slice(), 32);
            let sig: Vec<u8> = match raw_to_ecdsa_sig(EcCurve::P256, sig_bytes) {
                Ok(sig) => sig,
                Err(e) => return Err(e),
            };
            let vk: P256VerifyingKey = sk.verifying_key();
            Ok(p256_verify_prehash(vk.as_bytes(), prehash.as_slice(), sig.as_slice()))
        },
        (EcCurve::P256, SoftwareKey::EcP256 { public, .. }) => {
            let prehash: Vec<u8> = pad_prehash(raw_hash.as_slice(), 32);
            let sig: Vec<u8> = match raw_to_ecdsa_sig(EcCurve::P256, sig_bytes) {
                Ok(sig) => sig,
                Err(e) => return Err(e),
            };
            Ok(p256_verify_prehash(public.as_bytes(), prehash.as_slice(), sig.as_slice()))
        },
        (EcCurve::P384, SoftwareKey::EcP384 { private: Some(sk), .. }) => {
            let prehash: Vec<u8> = pad_prehash(raw_hash.as_slice(), 48);
            let sig: Vec<u8> = match raw_to_ecdsa_sig(EcCurve::P384, sig_bytes) {
                Ok(sig) => sig,
                Err(e) => return Err(e),
            };
            let vk: P384VerifyingKey = sk.verifying_key();
            Ok(p384_verify_prehash(vk.as_bytes(), prehash.as_slice(), sig.as_slice()))
        },
        (EcCurve::P384, SoftwareKey::EcP384 { public, .. }) => {
            let prehash: Vec<u8> = pad_prehash(raw_hash.as_slice(), 48);
            let sig: Vec<u8> = match raw_to_ecdsa_sig(EcCurve::P384, sig_bytes) {
                Ok(sig) => sig,
                Err(e) => return Err(e),
            };
            Ok(p384_verify_prehash(public.as_bytes(), prehash.as_slice(), sig.as_slice()))
        },
        (EcCurve::P521, SoftwareKey::EcP521 { private: Some(sk), .. }) => {
            let prehash: Vec<u8> = pad_prehash(raw_hash.as_slice(), 66);
            let sig: Vec<u8> = match raw_to_ecdsa_sig(EcCurve::P521, sig_bytes) {
                Ok(sig) => sig,
                Err(e) => return Err(e),
            };
            let vk: P521VerifyingKey = sk.verifying_key();
            Ok(p521_verify_prehash(vk.as_bytes(), prehash.as_slice(), sig.as_slice()))
        },
        (EcCurve::P521, SoftwareKey::EcP521 { public, .. }) => {
            let prehash: Vec<u8> = pad_prehash(raw_hash.as_slice(), 66);
            let sig: Vec<u8> = match raw_to_ecdsa_sig(EcCurve::P521, sig_bytes) {
                Ok(sig) => sig,
                Err(e) => return Err(e),
            };
            Ok(p521_verify_prehash(public.as_bytes(), prehash.as_slice(), sig.as_slice()))
        },
        _ => Err(
            Error::Key(join3("ECDSA ", curve.debug_name(), " key required for verification")),
        ),
    }
}

} // verus!
