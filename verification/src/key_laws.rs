//! What key material is read as, said of the bytes that are read and given back.
use crate::algorithm::EcCurve;
use crate::bytes::{be_value, lemma_zeros_in_front};
use crate::key::{
    ec_point, ec_public_point, P256SigningKey, P256VerifyingKey, P384SigningKey,
    P384VerifyingKey, P521SigningKey, P521VerifyingKey, SoftwareKey,
};
use crate::secret::{SecretBytes, SecretText};
use vstd::prelude::*;

verus! {

/// Secrets are kept as they are taken.
pub proof fn secrets_are_kept(
    bytes: Vec<u8>,
    kept: SecretBytes,
    slice: &[u8],
    text: String,
    kept_text: SecretText,
    read: &str,
)
    requires
        call_ensures(SecretBytes::new, (bytes,), kept),
        call_ensures(SecretBytes::as_slice, (&kept,), slice),
        call_ensures(SecretText::new, (text,), kept_text),
        call_ensures(SecretText::as_str, (&kept_text,), read),
    ensures
        slice@ == bytes@,
        read@ == text@,
{
}

/// A key that is wiped has no byte of a shared secret or of a post-quantum private key
/// left, and the same public half and scheme. A key that holds neither stays as it is.
pub proof fn wiped_keys_keep_no_secret(key: &mut SoftwareKey)
    requires
        call_ensures(SoftwareKey::wipe, (key,), ()),
    ensures
        *old(key) is Hmac ==> *final(key) is Hmac && final(key)->Hmac_0@.len() == 0,
        *old(key) is PostQuantum ==> {
            &&& *final(key) is PostQuantum
            &&& final(key)->PostQuantum_public_der == old(key)->PostQuantum_public_der
            &&& final(key)->PostQuantum_algorithm == old(key)->PostQuantum_algorithm
            &&& final(key)->PostQuantum_private_der is Some
                <==> old(key)->PostQuantum_private_der is Some
            &&& final(key)->PostQuantum_private_der matches Some(p) ==> p@.len() == 0
        },
        !(*old(key) is Hmac || *old(key) is PostQuantum) ==> *final(key) == *old(key),
{
}

/// Secrets that are wiped are empty, and are read as nothing.
pub proof fn wiped_secrets_are_empty(bytes: &mut SecretBytes, text: &mut SecretText)
    requires
        call_ensures(SecretBytes::wipe, (bytes,), ()),
        call_ensures(SecretText::wipe, (text,), ()),
    ensures
        final(bytes)@.len() == 0,
        final(text)@.len() == 0,
{
}

/// A P-256 private key is read from 24 to 32 big-endian bytes whose number lies between
/// zero and the order of the curve's group; it is given back as 32 bytes of the same
/// number, and its public key is the curve's for that number.
pub proof fn p256_private_keys_are_numbers(
    bytes: &[u8],
    r: Option<P256SigningKey>,
    back: &[u8],
    public: P256VerifyingKey,
    point: &[u8],
)
    requires
        call_ensures(P256SigningKey::from_slice, (bytes,), r),
        call_ensures(P256SigningKey::as_bytes, (&r->0,), back),
        call_ensures(P256SigningKey::verifying_key, (&r->0,), public),
        call_ensures(P256VerifyingKey::as_bytes, (&public,), point),
    ensures
        r is Some <==> 24 <= bytes@.len() <= 32 && 0 < be_value(bytes@) < EcCurve::P256.order(),
        r is Some ==> {
            &&& back@.len() == 32
            &&& be_value(back@) == be_value(bytes@)
            &&& r->0@ == back@
            &&& point@ == ec_public_point(EcCurve::P256, back@)
        },
{
    if bytes@.len() < 32 {
        lemma_zeros_in_front((32 - bytes@.len()) as nat, bytes@);
    }
}

/// A P-256 public key is the point that the curve's crate reads, and is read again from
/// what it is given back as.
pub proof fn p256_public_keys_are_points(
    bytes: &[u8],
    r: Option<P256VerifyingKey>,
    back: &[u8],
    again: Option<P256VerifyingKey>,
)
    requires
        call_ensures(P256VerifyingKey::from_sec1_bytes, (bytes,), r),
        call_ensures(P256VerifyingKey::as_bytes, (&r->0,), back),
        call_ensures(P256VerifyingKey::from_sec1_bytes, (back,), again),
    ensures
        r is Some <==> ec_point(EcCurve::P256, bytes@) is Some,
        r is Some ==> {
            &&& Some(back@) == ec_point(EcCurve::P256, bytes@)
            &&& again is Some
            &&& again->0@ == r->0@
        },
{
}

/// A P-384 private key is read from 24 to 48 big-endian bytes whose number lies between
/// zero and the order of the curve's group; it is given back as 48 bytes of the same
/// number, and its public key is the curve's for that number.
pub proof fn p384_private_keys_are_numbers(
    bytes: &[u8],
    r: Option<P384SigningKey>,
    back: &[u8],
    public: P384VerifyingKey,
    point: &[u8],
)
    requires
        call_ensures(P384SigningKey::from_slice, (bytes,), r),
        call_ensures(P384SigningKey::as_bytes, (&r->0,), back),
        call_ensures(P384SigningKey::verifying_key, (&r->0,), public),
        call_ensures(P384VerifyingKey::as_bytes, (&public,), point),
    ensures
        r is Some <==> 24 <= bytes@.len() <= 48 && 0 < be_value(bytes@) < EcCurve::P384.order(),
        r is Some ==> {
            &&& back@.len() == 48
            &&& be_value(back@) == be_value(bytes@)
            &&& r->0@ == back@
            &&& point@ == ec_public_point(EcCurve::P384, back@)
        },
{
    if bytes@.len() < 48 {
        lemma_zeros_in_front((48 - bytes@.len()) as nat, bytes@);
    }
}

/// A P-384 public key is the point that the curve's crate reads, and is read again from
/// what it is given back as.
pub proof fn p384_public_keys_are_points(
    bytes: &[u8],
    r: Option<P384VerifyingKey>,
    back: &[u8],
    again: Option<P384VerifyingKey>,
)
    requires
        call_ensures(P384VerifyingKey::from_sec1_bytes, (bytes,), r),
        call_ensures(P384VerifyingKey::as_bytes, (&r->0,), back),
        call_ensures(P384VerifyingKey::from_sec1_bytes, (back,), again),
    ensures
        r is Some <==> ec_point(EcCurve::P384, bytes@) is Some,
        r is Some ==> {
            &&& Some(back@) == ec_point(EcCurve::P384, bytes@)
            &&& again is Some
            &&& again->0@ == r->0@
        },
{
}

/// A P-521 private key is read from 24 to 66 big-endian bytes whose number lies between
/// zero and the order of the curve's group; it is given back as 66 bytes of the same
/// number, and its public key is the curve's for that number.
pub proof fn p521_private_keys_are_numbers(
    bytes: &[u8],
    r: Option<P521SigningKey>,
    back: &[u8],
    public: P521VerifyingKey,
    point: &[u8],
)
    requires
        call_ensures(P521SigningKey::from_slice, (bytes,), r),
        call_ensures(P521SigningKey::as_bytes, (&r->0,), back),
        call_ensures(P521SigningKey::verifying_key, (&r->0,), public),
        call_ensures(P521VerifyingKey::as_bytes, (&public,), point),
    ensures
        r is Some <==> 24 <= bytes@.len() <= 66 && 0 < be_value(bytes@) < EcCurve::P521.order(),
        r is Some ==> {
            &&& back@.len() == 66
            &&& be_value(back@) == be_value(bytes@)
            &&& r->0@ == back@
            &&& point@ == ec_public_point(EcCurve::P521, back@)
        },
{
    if bytes@.len() < 66 {
        lemma_zeros_in_front((66 - bytes@.len()) as nat, bytes@);
    }
}

/// A P-521 public key is the point that the curve's crate reads, and is read again from
/// what it is given back as.
pub proof fn p521_public_keys_are_points(
    bytes: &[u8],
    r: Option<P521VerifyingKey>,
    back: &[u8],
    again: Option<P521VerifyingKey>,
)
    requires
        call_ensures(P521VerifyingKey::from_sec1_bytes, (bytes,), r),
        call_ensures(P521VerifyingKey::as_bytes, (&r->0,), back),
        call_ensures(P521VerifyingKey::from_sec1_bytes, (back,), again),
    ensures
        r is Some <==> ec_point(EcCurve::P521, bytes@) is Some,
        r is Some ==> {
            &&& Some(back@) == ec_point(EcCurve::P521, bytes@)
            &&& again is Some
            &&& again->0@ == r->0@
        },
{
}

} // verus!
