//! Ed25519 signatures.
use crate::algorithm::HashAlgorithm;
use crate::bytes::{be_value, zeros};
use crate::digest::hash_of;
use crate::error::{outcome, view_outcome, Error, ErrorView, Result};
use crate::key::SoftwareKey;
use crate::text::join2;
use vstd::prelude::*;

verus! {

/// The 32 secret bytes of a signing key.
pub uninterp spec fn ed25519_secret(key: ed25519_dalek::SigningKey) -> Seq<u8>;

/// The 32 bytes of a verifying key.
pub uninterp spec fn ed25519_public_bytes(key: ed25519_dalek::VerifyingKey) -> Seq<u8>;

/// The bytes of the verifying key that belongs to `secret`.
pub uninterp spec fn ed25519_public(secret: Seq<u8>) -> Seq<u8>;

/// What `ed25519_dalek::SigningKey::sign` gives for `data`.
pub uninterp spec fn ed25519_signature(secret: Seq<u8>, data: Seq<u8>) -> Seq<u8>;

/// Whether `ed25519_dalek::VerifyingKey::verify_strict` accepts `sig` for
/// `data` under the key `public`.
pub uninterp spec fn ed25519_accepts(public: Seq<u8>, data: Seq<u8>, sig: Seq<u8>) -> bool;

/// The encoding of the neutral element of the curve.
pub open spec fn ed25519_identity() -> Seq<u8> {
    seq![1u8] + zeros(31)
}

/// The number that a little-endian byte string denotes.
pub open spec fn le_value(bytes: Seq<u8>) -> nat {
    be_value(bytes.reverse())
}

/// The order of the base point.
pub open spec fn ed25519_order() -> nat {
    0x1000000000000000000000000000000014def9dea2f79cd65812631a5cf5d3ednat
}

/// The order of the curve's field.
pub open spec fn ed25519_prime() -> nat {
    0x7fffffffffffffffffffffffffffffffffffffffffffffffffffffffffffffednat
}

/// The y-coordinate in an encoded point; the top bit is the sign of x.
pub open spec fn ed25519_y(bytes: Seq<u8>) -> nat {
    le_value(bytes) % 0x8000000000000000000000000000000000000000000000000000000000000000nat
}

/// The y-coordinate of two of the points of order 8; that of the other two is its
/// negative.
pub open spec fn ed25519_order_8_y() -> nat {
    0x05fc536d880238b13933c6d305acdfd5f098eff289f4c345b027b2c28f95e826nat
}

/// Whether the point encoded in `bytes` has a low order: 1, 2, 4 or 8.
pub open spec fn ed25519_low_order(bytes: Seq<u8>) -> bool {
    let y = ed25519_y(bytes);
    ||| y == 1
    ||| y == ed25519_prime() - 1
    ||| y == 0
    ||| y == ed25519_order_8_y()
    ||| y == ed25519_prime() - ed25519_order_8_y()
}

/// What a signature must meet to be accepted at all: its point is in canonical
/// form and not of low order, and its scalar is reduced.
pub open spec fn ed25519_strict(sig: Seq<u8>) -> bool {
    &&& ed25519_y(sig.subrange(0, 32)) < ed25519_prime()
    &&& !ed25519_low_order(sig.subrange(0, 32))
    &&& le_value(sig.subrange(32, 64)) < ed25519_order()
}

/// The number by which a signature is bound to the key and the data: the SHA-512 of
/// the signature's point, the key and the data, reduced by the order of the base
/// point.
pub open spec fn ed25519_challenge(public: Seq<u8>, data: Seq<u8>, sig: Seq<u8>) -> nat {
    le_value(hash_of(HashAlgorithm::Sha512, sig.subrange(0, 32) + public + data)) % ed25519_order()
}

/// Whether `sig`, which was made for `data`, is accepted for no data with another
/// challenge.
pub open spec fn ed25519_is_bound(public: Seq<u8>, data: Seq<u8>, sig: Seq<u8>) -> bool {
    forall|other: Seq<u8>| #[trigger]
        ed25519_accepts(public, other, sig) ==> ed25519_challenge(public, other, sig)
            == ed25519_challenge(public, data, sig)
}

/// Calls `ed25519_dalek::SigningKey::verifying_key`. Claims that the key follows
/// from the secret bytes.
#[verifier::external_body]
fn verifying_key(key: &ed25519_dalek::SigningKey) -> (r: ed25519_dalek::VerifyingKey)
    ensures
        ed25519_public_bytes(r) == ed25519_public(ed25519_secret(*key)),
{
    key.verifying_key()
}

/// Calls `ed25519_dalek::SigningKey::sign`. Claims that the signature follows
/// from the secret bytes and the data, that it is 64 bytes long, that the strict
/// check accepts it unless its first half encodes the neutral element, which the
/// strict check refuses, and that the strict check accepts it for no data with
/// another challenge: the point that the check computes from such data is not the
/// signature's.
#[verifier::external_body]
fn sign(key: &ed25519_dalek::SigningKey, data: &[u8]) -> (r: Vec<u8>)
    ensures
        r@ == ed25519_signature(ed25519_secret(*key), data@),
        r@.len() == 64,
        r@.subrange(0, 32) != ed25519_identity() ==> ed25519_accepts(
            ed25519_public(ed25519_secret(*key)),
            data@,
            r@,
        ),
        ed25519_is_bound(ed25519_public(ed25519_secret(*key)), data@, r@),
{
    ed25519_dalek::Signer::sign(key, data).to_bytes().to_vec()
}

/// Calls `ed25519_dalek::Signature::from_slice`, and `to_bytes` on what it
/// gives. Claims that exactly the strings of 64 bytes are read, each as itself,
/// and what the error's text is.
#[verifier::external_body]
fn signature_from_slice(bytes: &[u8]) -> (r: core::result::Result<Vec<u8>, String>)
    ensures
        r is Ok <==> bytes@.len() == 64,
        r matches Ok(sig) ==> sig@ == bytes@,
        r matches Err(e) ==> e@ == "signature error"@,
{
    ed25519_dalek::Signature::from_slice(bytes)
        .map(|sig| sig.to_bytes().to_vec())
        .map_err(|e| e.to_string())
}

/// Calls `ed25519_dalek::VerifyingKey::verify_strict`. Claims that the answer
/// is a function of the key's bytes, the data and the signature, and that it is
/// no where the signature's point is not canonical or has a low order, or its
/// scalar is not reduced.
#[verifier::external_body]
fn verify_strict(key: &ed25519_dalek::VerifyingKey, data: &[u8], sig: &[u8]) -> (r: bool)
    requires
        sig@.len() == 64,
    ensures
        r == ed25519_accepts(ed25519_public_bytes(*key), data@, sig@),
        r ==> ed25519_strict(sig@),
{
    let sig = ed25519_dalek::Signature::from_slice(sig).unwrap();
    key.verify_strict(data, &sig).is_ok()
}

/// The possible outcomes of signing: one. The key's public key accepts it unless
/// its first half encodes the neutral element, and accepts it for no data with
/// another challenge.
pub open spec fn ed25519_sign_outcome(
    key: SoftwareKey,
    data: Seq<u8>,
    r: core::result::Result<Seq<u8>, ErrorView>,
) -> bool {
    match key {
        SoftwareKey::Ed25519 { private: Some(sk), .. } => {
            let secret = ed25519_secret(sk);
            let sig = ed25519_signature(secret, data);
            &&& r == core::result::Result::<Seq<u8>, ErrorView>::Ok(sig)
            &&& sig.len() == 64
            &&& sig.subrange(0, 32) != ed25519_identity() ==> ed25519_accepts(
                ed25519_public(secret),
                data,
                sig,
            )
            &&& ed25519_is_bound(ed25519_public(secret), data, sig)
        },
        _ => r == core::result::Result::<Seq<u8>, ErrorView>::Err(
            ErrorView::Key("Ed25519 private key required"@),
        ),
    }
}

/// Signs `data`.
pub fn ed25519_sign(key: &SoftwareKey, data: &[u8]) -> (r: Result<Vec<u8>>)
    ensures
        ed25519_sign_outcome(*key, data@, view_outcome(r)),
{
    match key {
        SoftwareKey::Ed25519 { private: Some(sk), .. } => Ok(sign(sk, data)),
        _ => Err(Error::Key("Ed25519 private key required".to_owned())),
    }
}

/// The bytes of the verifying key that `key` verifies with: that of its private
/// key where it has one, else the stored one.
pub open spec fn ed25519_verifying(key: SoftwareKey) -> Option<Seq<u8>> {
    match key {
        SoftwareKey::Ed25519 { private: Some(sk), .. } => Some(ed25519_public(ed25519_secret(sk))),
        SoftwareKey::Ed25519 { public, .. } => Some(ed25519_public_bytes(public)),
        _ => None,
    }
}

/// The answer of verification.
pub open spec fn ed25519_verify_outcome(
    key: SoftwareKey,
    data: Seq<u8>,
    sig: Seq<u8>,
) -> core::result::Result<bool, ErrorView> {
    match ed25519_verifying(key) {
        Some(public) => if sig.len() == 64 {
            Ok(ed25519_accepts(public, data, sig))
        } else {
            Err(ErrorView::Crypto("invalid Ed25519 signature: "@ + "signature error"@))
        },
        None => Err(ErrorView::Key("Ed25519 key required"@)),
    }
}

/// Verifies a signature by the strict rules: none is accepted whose point is not
/// canonical or has a low order, or whose scalar is not reduced.
pub fn ed25519_verify(key: &SoftwareKey, data: &[u8], sig_bytes: &[u8]) -> (r: Result<bool>)
    ensures
        outcome(r) == ed25519_verify_outcome(*key, data@, sig_bytes@),
        r matches Ok(true) ==> ed25519_strict(sig_bytes@),
{
    let vk: ed25519_dalek::VerifyingKey = match key {
        SoftwareKey::Ed25519 { private: Some(sk), .. } => verifying_key(sk),
        SoftwareKey::Ed25519 { public, .. } => *public,
        _ => return Err(Error::Key("Ed25519 key required".to_owned())),
    };
    let sig: Vec<u8> = match signature_from_slice(sig_bytes) {
        Ok(sig) => sig,
        Err(e) => return Err(Error::Crypto(join2("invalid Ed25519 signature: ", e.as_str()))),
    };
    Ok(verify_strict(&vk, data, sig.as_slice()))
}

} // verus!
