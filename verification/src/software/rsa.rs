//! RSA signatures: PKCS#1 v1.5 and PSS.
use crate::algorithm::HashAlgorithm;
use crate::bytes::{bit_len, option_view};
use crate::error::{crypto_reply, outcome, view_outcome, Error, ErrorView, Result};
use crate::key::SoftwareKey;
use crate::software::dsa::is_prime;
use crate::text::join2;
use vstd::prelude::*;

verus! {

/// The modulus and the public exponent of an RSA public key.
pub uninterp spec fn rsa_public_numbers(key: rsa::RsaPublicKey) -> (nat, nat);

/// The modulus and the public exponent of an RSA private key.
pub uninterp spec fn rsa_private_numbers(key: rsa::RsaPrivateKey) -> (nat, nat);

/// The factors of the modulus that an RSA private key holds, as
/// `rsa::traits::PrivateKeyParts::primes` gives them.
pub uninterp spec fn rsa_factors(key: rsa::RsaPrivateKey) -> Seq<nat>;

/// Whether an RSA private key holds values computed beforehand by which it signs
/// with one factor after the other.
pub uninterp spec fn rsa_uses_factors(key: rsa::RsaPrivateKey) -> bool;

/// An RSA private key after `rsa::RsaPrivateKey::clear_precomputed`.
pub uninterp spec fn rsa_plain(key: rsa::RsaPrivateKey) -> rsa::RsaPrivateKey;

/// What `rsa::pkcs1v15::SigningKey::try_sign` gives for `data`, with the hasher
/// type of `hash`; `None` where it fails.
pub uninterp spec fn rsa_pkcs1v15_signature(
    hash: HashAlgorithm,
    key: rsa::RsaPrivateKey,
    data: Seq<u8>,
) -> Option<Seq<u8>>;

/// Whether `rsa::pkcs1v15::VerifyingKey::verify`, with the hasher type of
/// `hash`, accepts `sig` for `data` under the key of modulus `key.0` and
/// exponent `key.1`.
pub uninterp spec fn rsa_pkcs1v15_accepts(
    hash: HashAlgorithm,
    key: (nat, nat),
    data: Seq<u8>,
    sig: Seq<u8>,
) -> bool;

/// Whether `rsa::pss::VerifyingKey::verify`, with the hasher type of `hash`,
/// accepts `sig` for `data` under the key of modulus `key.0` and exponent
/// `key.1`.
pub uninterp spec fn rsa_pss_accepts(
    hash: HashAlgorithm,
    key: (nat, nat),
    data: Seq<u8>,
    sig: Seq<u8>,
) -> bool;

/// The bytes that a PKCS#1 v1.5 signature value stands for.
pub uninterp spec fn rsa_pkcs1v15_signature_bytes(sig: rsa::pkcs1v15::Signature) -> Seq<u8>;

/// The bytes that a PSS signature value stands for.
pub uninterp spec fn rsa_pss_signature_bytes(sig: rsa::pss::Signature) -> Seq<u8>;

/// A PKCS#1 v1.5 signature of the `rsa` crate.
#[verifier::external_type_specification]
#[verifier::external_body]
pub struct ExPkcs1v15Signature(rsa::pkcs1v15::Signature);

/// A PSS signature of the `rsa` crate.
#[verifier::external_type_specification]
#[verifier::external_body]
pub struct ExPssSignature(rsa::pss::Signature);

/// Calls `rsa::pkcs1v15::Signature::try_from` a slice. Claims that it takes any
/// bytes, and that the value stands for them.
#[verifier::external_body]
fn pkcs1v15_signature(bytes: &[u8]) -> (r: core::result::Result<rsa::pkcs1v15::Signature, String>)
    ensures
        r is Ok,
        rsa_pkcs1v15_signature_bytes(r->Ok_0) == bytes@,
{
    rsa::pkcs1v15::Signature::try_from(bytes).map_err(|e| e.to_string())
}

/// Calls `rsa::pss::Signature::try_from` a slice. Claims that it takes any
/// bytes, and that the value stands for them.
#[verifier::external_body]
fn pss_signature(bytes: &[u8]) -> (r: core::result::Result<rsa::pss::Signature, String>)
    ensures
        r is Ok,
        rsa_pss_signature_bytes(r->Ok_0) == bytes@,
{
    rsa::pss::Signature::try_from(bytes).map_err(|e| e.to_string())
}

/// Calls `bits` on the `n` of `rsa::traits::PublicKeyParts`. Claims that it is
/// the length of the modulus in bits.
#[verifier::external_body]
fn modulus_bits(key: &rsa::RsaPrivateKey) -> (r: usize)
    ensures
        r == bit_len(rsa_private_numbers(*key).0),
{
    rsa::traits::PublicKeyParts::n(key).bits()
}

/// Calls `primes` of `rsa::traits::PrivateKeyParts`. Claims that there are as many
/// as the key has factors.
#[verifier::external_body]
fn factor_count(key: &rsa::RsaPrivateKey) -> (r: usize)
    ensures
        r == rsa_factors(*key).len(),
{
    rsa::traits::PrivateKeyParts::primes(key).len()
}

/// Calls `bits` on one of the `primes` of `rsa::traits::PrivateKeyParts`. Claims
/// that it is the length of that factor in bits.
#[verifier::external_body]
fn factor_bits(key: &rsa::RsaPrivateKey, i: usize) -> (r: usize)
    requires
        i < rsa_factors(*key).len(),
    ensures
        r == bit_len(rsa_factors(*key)[i as int]),
{
    rsa::traits::PrivateKeyParts::primes(key)[i].bits()
}

/// Calls `rsa::RsaPrivateKey::to_public_key`. Claims that the public key has the
/// private key's modulus and public exponent.
#[verifier::external_body]
fn to_public_key(key: &rsa::RsaPrivateKey) -> (r: rsa::RsaPublicKey)
    ensures
        rsa_public_numbers(r) == rsa_private_numbers(*key),
{
    key.to_public_key()
}

/// Calls `dp` of `rsa::traits::PrivateKeyParts`. Claims that it is there exactly
/// where the key holds the values computed beforehand.
#[verifier::external_body]
fn uses_factors(key: &rsa::RsaPrivateKey) -> (r: bool)
    ensures
        r == rsa_uses_factors(*key),
{
    rsa::traits::PrivateKeyParts::dp(key).is_some()
}

/// Calls `rsa::RsaPrivateKey::clear_precomputed` on a copy of the key. Claims that
/// the values computed beforehand are gone from it and that its numbers and factors
/// are the same, and, where the factors are different primes, so that there is one
/// signature only, that it signs as before.
#[verifier::external_body]
fn clear_precomputed(key: &rsa::RsaPrivateKey) -> (r: rsa::RsaPrivateKey)
    ensures
        r == rsa_plain(*key),
        !rsa_uses_factors(r),
        rsa_private_numbers(r) == rsa_private_numbers(*key),
        rsa_factors(r) == rsa_factors(*key),
        are_distinct_primes(rsa_factors(*key)) ==> rsa_signs_alike(r, *key),
{
    let mut plain = key.clone();
    plain.clear_precomputed();
    plain
}

/// Whether two keys give the same PKCS#1 v1.5 signatures.
pub open spec fn rsa_signs_alike(a: rsa::RsaPrivateKey, b: rsa::RsaPrivateKey) -> bool {
    forall|hash: HashAlgorithm, data: Seq<u8>| #[trigger]
        rsa_pkcs1v15_signature(hash, a, data) == rsa_pkcs1v15_signature(hash, b, data)
}

/// Whether the second factor has at most 24 bits more than the first. Signing with
/// one factor after the other takes up to as many steps as the first factor goes
/// into the second, so that with factors much further apart it would not come to
/// an end. The limit is this library's: beyond it, the quicker way is to sign
/// without the factors.
pub open spec fn factors_are_balanced(factors: Seq<nat>) -> bool {
    &&& factors.len() >= 2
    &&& bit_len(factors[1]) <= bit_len(factors[0]) + 24
}

/// Whether signing with the key as it is comes to an end soon.
pub open spec fn rsa_signs_soon(key: rsa::RsaPrivateKey) -> bool {
    rsa_uses_factors(key) ==> factors_are_balanced(rsa_factors(key))
}

/// The key that is signed with: the key itself, or without the values computed
/// beforehand where these would hold it up.
pub open spec fn rsa_signing_key(key: rsa::RsaPrivateKey) -> rsa::RsaPrivateKey {
    if rsa_signs_soon(key) {
        key
    } else {
        rsa_plain(key)
    }
}

fn signs_soon(key: &rsa::RsaPrivateKey) -> (r: bool)
    ensures
        r == rsa_signs_soon(*key),
{
    if !uses_factors(key) {
        return true;
    }
    if factor_count(key) < 2 {
        return false;
    }
    let first: usize = factor_bits(key, 0);
    let second: usize = factor_bits(key, 1);
    second <= first || second - first <= 24
}

/// The length in bytes of a modulus, and so of a signature.
pub open spec fn modulus_len(modulus: nat) -> nat {
    (bit_len(modulus) + 7) / 8
}

/// `r` is the outcome of PKCS#1 v1.5 signing: that of the key itself where its
/// factors are different primes, however far apart they are. A signature is as long
/// as the modulus, and the public half of the key accepts it.
pub open spec fn pkcs1v15_signed(
    hash: HashAlgorithm,
    key: rsa::RsaPrivateKey,
    data: Seq<u8>,
    r: Option<Seq<u8>>,
) -> bool {
    &&& r == rsa_pkcs1v15_signature(hash, rsa_signing_key(key), data)
    &&& are_distinct_primes(rsa_factors(key)) ==> r == rsa_pkcs1v15_signature(hash, key, data)
    &&& r matches Some(sig) ==> sig.len() == modulus_len(rsa_private_numbers(key).0)
    &&& r matches Some(sig) ==> rsa_pkcs1v15_accepts(hash, rsa_private_numbers(key), data, sig)
}

/// Whether a modulus has room for a PSS encoding with a salt as long as the
/// hash.
pub open spec fn pss_fits(hash: HashAlgorithm, modulus: nat) -> bool {
    (bit_len(modulus) + 6) / 8 >= 2 * hash.output_len() + 2
}

/// Whether numbers are prime and no two of them equal.
pub open spec fn are_distinct_primes(factors: Seq<nat>) -> bool {
    &&& forall|i: int| 0 <= i < factors.len() ==> is_prime(#[trigger] factors[i])
    &&& factors.no_duplicates()
}

/// Whether a key can sign by PSS whatever the salt: the modulus has room for the
/// encoding, and its factors are different primes.
pub open spec fn pss_always_signs(hash: HashAlgorithm, modulus: nat, factors: Seq<nat>) -> bool {
    &&& pss_fits(hash, modulus)
    &&& are_distinct_primes(factors)
}

/// `r` can be the outcome of PSS signing, whose salt is random: a sound key
/// signs, a signature is as long as the modulus, and the public half of the key
/// accepts it.
pub open spec fn pss_signed(
    hash: HashAlgorithm,
    key: rsa::RsaPrivateKey,
    data: Seq<u8>,
    r: core::result::Result<Vec<u8>, String>,
) -> bool {
    &&& pss_always_signs(hash, rsa_private_numbers(key).0, rsa_factors(key)) ==> r is Ok
    &&& r matches Ok(sig) ==> sig@.len() == modulus_len(rsa_private_numbers(key).0)
    &&& r matches Ok(sig) ==> rsa_pss_accepts(hash, rsa_private_numbers(key), data, sig@)
}

/// Calls `rsa::pkcs1v15::SigningKey::<sha1::Sha1>::try_sign`. Claims that its
/// outcome is a function of key and data, and that a signature is as long as the
/// modulus and accepted under the key's public half.
#[verifier::external_body]
fn pkcs1v15_sign_sha1(key: &rsa::RsaPrivateKey, data: &[u8]) -> (r: Option<Vec<u8>>)
    requires
        rsa_signs_soon(*key),
    ensures
        option_view(r) == rsa_pkcs1v15_signature(HashAlgorithm::Sha1, *key, data@),
        r matches Some(sig) ==> sig@.len() == modulus_len(rsa_private_numbers(*key).0),
        r matches Some(sig) ==> rsa_pkcs1v15_accepts(
            HashAlgorithm::Sha1,
            rsa_private_numbers(*key),
            data@,
            sig@,
        ),
{
    let sk = rsa::pkcs1v15::SigningKey::<sha1::Sha1>::new(key.clone());
    signature::Signer::try_sign(&sk, data).ok().map(|s| signature::SignatureEncoding::to_vec(&s))
}

/// Calls `rsa::pkcs1v15::VerifyingKey::<sha1::Sha1>::verify`. Claims that the
/// answer is a function of the key's numbers, the data and the signature.
#[verifier::external_body]
fn pkcs1v15_verify_sha1(key: &rsa::RsaPublicKey, data: &[u8], sig: &rsa::pkcs1v15::Signature) -> (r: bool)
    ensures
        r == rsa_pkcs1v15_accepts(
            HashAlgorithm::Sha1,
            rsa_public_numbers(*key),
            data@,
            rsa_pkcs1v15_signature_bytes(*sig),
        ),
{
    let vk = rsa::pkcs1v15::VerifyingKey::<sha1::Sha1>::new(key.clone());
    signature::Verifier::verify(&vk, data, sig).is_ok()
}

/// Calls `rsa::pss::SigningKey::<sha1::Sha1>::try_sign_with_rng` with the system's
/// random numbers. Claims that it signs where the modulus has room and its
/// factors are different primes (the constructors of the key check the modulus
/// and the exponents against the factors, but not that these are prime), and that
/// a signature is as long as the modulus and accepted under the key's public half.
#[verifier::external_body]
fn pss_sign_sha1(key: &rsa::RsaPrivateKey, data: &[u8]) -> (r: core::result::Result<Vec<u8>, String>)
    requires
        rsa_signs_soon(*key),
    ensures
        pss_always_signs(
            HashAlgorithm::Sha1,
            rsa_private_numbers(*key).0,
            rsa_factors(*key),
        ) ==> r is Ok,
        r matches Ok(sig) ==> sig@.len() == modulus_len(rsa_private_numbers(*key).0),
        r matches Ok(sig) ==> rsa_pss_accepts(
            HashAlgorithm::Sha1,
            rsa_private_numbers(*key),
            data@,
            sig@,
        ),
{
    let sk = rsa::pss::SigningKey::<sha1::Sha1>::new(key.clone());
    signature::RandomizedSigner::try_sign_with_rng(&sk, &mut rand::rngs::OsRng, data)
        .map(|s| signature::SignatureEncoding::to_vec(&s))
        .map_err(|e| e.to_string())
}

/// Calls `rsa::pss::VerifyingKey::<sha1::Sha1>::verify`. Claims that the answer is
/// a function of the key's numbers, the data and the signature.
#[verifier::external_body]
fn pss_verify_sha1(key: &rsa::RsaPublicKey, data: &[u8], sig: &rsa::pss::Signature) -> (r: bool)
    ensures
        r == rsa_pss_accepts(
            HashAlgorithm::Sha1,
            rsa_public_numbers(*key),
            data@,
            rsa_pss_signature_bytes(*sig),
        ),
{
    let vk = rsa::pss::VerifyingKey::<sha1::Sha1>::new(key.clone());
    signature::Verifier::verify(&vk, data, sig).is_ok()
}

/// Calls `rsa::pkcs1v15::SigningKey::<sha2::Sha224>::try_sign`. Claims that its
/// outcome is a function of key and data, and that a signature is as long as the
/// modulus and accepted under the key's public half.
#[verifier::external_body]
fn pkcs1v15_sign_sha224(key: &rsa::RsaPrivateKey, data: &[u8]) -> (r: Option<Vec<u8>>)
    requires
        rsa_signs_soon(*key),
    ensures
        option_view(r) == rsa_pkcs1v15_signature(HashAlgorithm::Sha224, *key, data@),
        r matches Some(sig) ==> sig@.len() == modulus_len(rsa_private_numbers(*key).0),
        r matches Some(sig) ==> rsa_pkcs1v15_accepts(
            HashAlgorithm::Sha224,
            rsa_private_numbers(*key),
            data@,
            sig@,
        ),
{
    let sk = rsa::pkcs1v15::SigningKey::<sha2::Sha224>::new(key.clone());
    signature::Signer::try_sign(&sk, data).ok().map(|s| signature::SignatureEncoding::to_vec(&s))
}

/// Calls `rsa::pkcs1v15::VerifyingKey::<sha2::Sha224>::verify`. Claims that the
/// answer is a function of the key's numbers, the data and the signature.
#[verifier::external_body]
fn pkcs1v15_verify_sha224(key: &rsa::RsaPublicKey, data: &[u8], sig: &rsa::pkcs1v15::Signature) -> (r: bool)
    ensures
        r == rsa_pkcs1v15_accepts(
            HashAlgorithm::Sha224,
            rsa_public_numbers(*key),
            data@,
            rsa_pkcs1v15_signature_bytes(*sig),
        ),
{
    let vk = rsa::pkcs1v15::VerifyingKey::<sha2::Sha224>::new(key.clone());
    signature::Verifier::verify(&vk, data, sig).is_ok()
}

/// Calls `rsa::pss::SigningKey::<sha2::Sha224>::try_sign_with_rng` with the system's
/// random numbers. Claims that it signs where the modulus has room and its
/// factors are different primes (the constructors of the key check the modulus
/// and the exponents against the factors, but not that these are prime), and that
/// a signature is as long as the modulus and accepted under the key's public half.
#[verifier::external_body]
fn pss_sign_sha224(key: &rsa::RsaPrivateKey, data: &[u8]) -> (r: core::result::Result<Vec<u8>, String>)
    requires
        rsa_signs_soon(*key),
    ensures
        pss_always_signs(
            HashAlgorithm::Sha224,
            rsa_private_numbers(*key).0,
            rsa_factors(*key),
        ) ==> r is Ok,
        r matches Ok(sig) ==> sig@.len() == modulus_len(rsa_private_numbers(*key).0),
        r matches Ok(sig) ==> rsa_pss_accepts(
            HashAlgorithm::Sha224,
            rsa_private_numbers(*key),
            data@,
            sig@,
        ),
{
    let sk = rsa::pss::SigningKey::<sha2::Sha224>::new(key.clone());
    signature::RandomizedSigner::try_sign_with_rng(&sk, &mut rand::rngs::OsRng, data)
        .map(|s| signature::SignatureEncoding::to_vec(&s))
        .map_err(|e| e.to_string())
}

/// Calls `rsa::pss::VerifyingKey::<sha2::Sha224>::verify`. Claims that the answer is
/// a function of the key's numbers, the data and the signature.
#[verifier::external_body]
fn pss_verify_sha224(key: &rsa::RsaPublicKey, data: &[u8], sig: &rsa::pss::Signature) -> (r: bool)
    ensures
        r == rsa_pss_accepts(
            HashAlgorithm::Sha224,
            rsa_public_numbers(*key),
            data@,
            rsa_pss_signature_bytes(*sig),
        ),
{
    let vk = rsa::pss::VerifyingKey::<sha2::Sha224>::new(key.clone());
    signature::Verifier::verify(&vk, data, sig).is_ok()
}

/// Calls `rsa::pkcs1v15::SigningKey::<sha2::Sha256>::try_sign`. Claims that its
/// outcome is a function of key and data, and that a signature is as long as the
/// modulus and accepted under the key's public half.
#[verifier::external_body]
fn pkcs1v15_sign_sha256(key: &rsa::RsaPrivateKey, data: &[u8]) -> (r: Option<Vec<u8>>)
    requires
        rsa_signs_soon(*key),
    ensures
        option_view(r) == rsa_pkcs1v15_signature(HashAlgorithm::Sha256, *key, data@),
        r matches Some(sig) ==> sig@.len() == modulus_len(rsa_private_numbers(*key).0),
        r matches Some(sig) ==> rsa_pkcs1v15_accepts(
            HashAlgorithm::Sha256,
            rsa_private_numbers(*key),
            data@,
            sig@,
        ),
{
    let sk = rsa::pkcs1v15::SigningKey::<sha2::Sha256>::new(key.clone());
    signature::Signer::try_sign(&sk, data).ok().map(|s| signature::SignatureEncoding::to_vec(&s))
}

/// Calls `rsa::pkcs1v15::VerifyingKey::<sha2::Sha256>::verify`. Claims that the
/// answer is a function of the key's numbers, the data and the signature.
#[verifier::external_body]
fn pkcs1v15_verify_sha256(key: &rsa::RsaPublicKey, data: &[u8], sig: &rsa::pkcs1v15::Signature) -> (r: bool)
    ensures
        r == rsa_pkcs1v15_accepts(
            HashAlgorithm::Sha256,
            rsa_public_numbers(*key),
            data@,
            rsa_pkcs1v15_signature_bytes(*sig),
        ),
{
    let vk = rsa::pkcs1v15::VerifyingKey::<sha2::Sha256>::new(key.clone());
    signature::Verifier::verify(&vk, data, sig).is_ok()
}

/// Calls `rsa::pss::SigningKey::<sha2::Sha256>::try_sign_with_rng` with the system's
/// random numbers. Claims that it signs where the modulus has room and its
/// factors are different primes (the constructors of the key check the modulus
/// and the exponents against the factors, but not that these are prime), and that
/// a signature is as long as the modulus and accepted under the key's public half.
#[verifier::external_body]
fn pss_sign_sha256(key: &rsa::RsaPrivateKey, data: &[u8]) -> (r: core::result::Result<Vec<u8>, String>)
    requires
        rsa_signs_soon(*key),
    ensures
        pss_always_signs(
            HashAlgorithm::Sha256,
            rsa_private_numbers(*key).0,
            rsa_factors(*key),
        ) ==> r is Ok,
        r matches Ok(sig) ==> sig@.len() == modulus_len(rsa_private_numbers(*key).0),
        r matches Ok(sig) ==> rsa_pss_accepts(
            HashAlgorithm::Sha256,
            rsa_private_numbers(*key),
            data@,
            sig@,
        ),
{
    let sk = rsa::pss::SigningKey::<sha2::Sha256>::new(key.clone());
    signature::RandomizedSigner::try_sign_with_rng(&sk, &mut rand::rngs::OsRng, data)
        .map(|s| signature::SignatureEncoding::to_vec(&s))
        .map_err(|e| e.to_string())
}

/// Calls `rsa::pss::VerifyingKey::<sha2::Sha256>::verify`. Claims that the answer is
/// a function of the key's numbers, the data and the signature.
#[verifier::external_body]
fn pss_verify_sha256(key: &rsa::RsaPublicKey, data: &[u8], sig: &rsa::pss::Signature) -> (r: bool)
    ensures
        r == rsa_pss_accepts(
            HashAlgorithm::Sha256,
            rsa_public_numbers(*key),
            data@,
            rsa_pss_signature_bytes(*sig),
        ),
{
    let vk = rsa::pss::VerifyingKey::<sha2::Sha256>::new(key.clone());
    signature::Verifier::verify(&vk, data, sig).is_ok()
}

/// Calls `rsa::pkcs1v15::SigningKey::<sha2::Sha384>::try_sign`. Claims that its
/// outcome is a function of key and data, and that a signature is as long as the
/// modulus and accepted under the key's public half.
#[verifier::external_body]
fn pkcs1v15_sign_sha384(key: &rsa::RsaPrivateKey, data: &[u8]) -> (r: Option<Vec<u8>>)
    requires
        rsa_signs_soon(*key),
    ensures
        option_view(r) == rsa_pkcs1v15_signature(HashAlgorithm::Sha384, *key, data@),
        r matches Some(sig) ==> sig@.len() == modulus_len(rsa_private_numbers(*key).0),
        r matches Some(sig) ==> rsa_pkcs1v15_accepts(
            HashAlgorithm::Sha384,
            rsa_private_numbers(*key),
            data@,
            sig@,
        ),
{
    let sk = rsa::pkcs1v15::SigningKey::<sha2::Sha384>::new(key.clone());
    signature::Signer::try_sign(&sk, data).ok().map(|s| signature::SignatureEncoding::to_vec(&s))
}

/// Calls `rsa::pkcs1v15::VerifyingKey::<sha2::Sha384>::verify`. Claims that the
/// answer is a function of the key's numbers, the data and the signature.
#[verifier::external_body]
fn pkcs1v15_verify_sha384(key: &rsa::RsaPublicKey, data: &[u8], sig: &rsa::pkcs1v15::Signature) -> (r: bool)
    ensures
        r == rsa_pkcs1v15_accepts(
            HashAlgorithm::Sha384,
            rsa_public_numbers(*key),
            data@,
            rsa_pkcs1v15_signature_bytes(*sig),
        ),
{
    let vk = rsa::pkcs1v15::VerifyingKey::<sha2::Sha384>::new(key.clone());
    signature::Verifier::verify(&vk, data, sig).is_ok()
}

/// Calls `rsa::pss::SigningKey::<sha2::Sha384>::try_sign_with_rng` with the system's
/// random numbers. Claims that it signs where the modulus has room and its
/// factors are different primes (the constructors of the key check the modulus
/// and the exponents against the factors, but not that these are prime), and that
/// a signature is as long as the modulus and accepted under the key's public half.
#[verifier::external_body]
fn pss_sign_sha384(key: &rsa::RsaPrivateKey, data: &[u8]) -> (r: core::result::Result<Vec<u8>, String>)
    requires
        rsa_signs_soon(*key),
    ensures
        pss_always_signs(
            HashAlgorithm::Sha384,
            rsa_private_numbers(*key).0,
            rsa_factors(*key),
        ) ==> r is Ok,
        r matches Ok(sig) ==> sig@.len() == modulus_len(rsa_private_numbers(*key).0),
        r matches Ok(sig) ==> rsa_pss_accepts(
            HashAlgorithm::Sha384,
            rsa_private_numbers(*key),
            data@,
            sig@,
        ),
{
    let sk = rsa::pss::SigningKey::<sha2::Sha384>::new(key.clone());
    signature::RandomizedSigner::try_sign_with_rng(&sk, &mut rand::rngs::OsRng, data)
        .map(|s| signature::SignatureEncoding::to_vec(&s))
        .map_err(|e| e.to_string())
}

/// Calls `rsa::pss::VerifyingKey::<sha2::Sha384>::verify`. Claims that the answer is
/// a function of the key's numbers, the data and the signature.
#[verifier::external_body]
fn pss_verify_sha384(key: &rsa::RsaPublicKey, data: &[u8], sig: &rsa::pss::Signature) -> (r: bool)
    ensures
        r == rsa_pss_accepts(
            HashAlgorithm::Sha384,
            rsa_public_numbers(*key),
            data@,
            rsa_pss_signature_bytes(*sig),
        ),
{
    let vk = rsa::pss::VerifyingKey::<sha2::Sha384>::new(key.clone());
    signature::Verifier::verify(&vk, data, sig).is_ok()
}

/// Calls `rsa::pkcs1v15::SigningKey::<sha2::Sha512>::try_sign`. Claims that its
/// outcome is a function of key and data, and that a signature is as long as the
/// modulus and accepted under the key's public half.
#[verifier::external_body]
fn pkcs1v15_sign_sha512(key: &rsa::RsaPrivateKey, data: &[u8]) -> (r: Option<Vec<u8>>)
    requires
        rsa_signs_soon(*key),
    ensures
        option_view(r) == rsa_pkcs1v15_signature(HashAlgorithm::Sha512, *key, data@),
        r matches Some(sig) ==> sig@.len() == modulus_len(rsa_private_numbers(*key).0),
        r matches Some(sig) ==> rsa_pkcs1v15_accepts(
            HashAlgorithm::Sha512,
            rsa_private_numbers(*key),
            data@,
            sig@,
        ),
{
    let sk = rsa::pkcs1v15::SigningKey::<sha2::Sha512>::new(key.clone());
    signature::Signer::try_sign(&sk, data).ok().map(|s| signature::SignatureEncoding::to_vec(&s))
}

/// Calls `rsa::pkcs1v15::VerifyingKey::<sha2::Sha512>::verify`. Claims that the
/// answer is a function of the key's numbers, the data and the signature.
#[verifier::external_body]
fn pkcs1v15_verify_sha512(key: &rsa::RsaPublicKey, data: &[u8], sig: &rsa::pkcs1v15::Signature) -> (r: bool)
    ensures
        r == rsa_pkcs1v15_accepts(
            HashAlgorithm::Sha512,
            rsa_public_numbers(*key),
            data@,
            rsa_pkcs1v15_signature_bytes(*sig),
        ),
{
    let vk = rsa::pkcs1v15::VerifyingKey::<sha2::Sha512>::new(key.clone());
    signature::Verifier::verify(&vk, data, sig).is_ok()
}

/// Calls `rsa::pss::SigningKey::<sha2::Sha512>::try_sign_with_rng` with the system's
/// random numbers. Claims that it signs where the modulus has room and its
/// factors are different primes (the constructors of the key check the modulus
/// and the exponents against the factors, but not that these are prime), and that
/// a signature is as long as the modulus and accepted under the key's public half.
#[verifier::external_body]
fn pss_sign_sha512(key: &rsa::RsaPrivateKey, data: &[u8]) -> (r: core::result::Result<Vec<u8>, String>)
    requires
        rsa_signs_soon(*key),
    ensures
        pss_always_signs(
            HashAlgorithm::Sha512,
            rsa_private_numbers(*key).0,
            rsa_factors(*key),
        ) ==> r is Ok,
        r matches Ok(sig) ==> sig@.len() == modulus_len(rsa_private_numbers(*key).0),
        r matches Ok(sig) ==> rsa_pss_accepts(
            HashAlgorithm::Sha512,
            rsa_private_numbers(*key),
            data@,
            sig@,
        ),
{
    let sk = rsa::pss::SigningKey::<sha2::Sha512>::new(key.clone());
    signature::RandomizedSigner::try_sign_with_rng(&sk, &mut rand::rngs::OsRng, data)
        .map(|s| signature::SignatureEncoding::to_vec(&s))
        .map_err(|e| e.to_string())
}

/// Calls `rsa::pss::VerifyingKey::<sha2::Sha512>::verify`. Claims that the answer is
/// a function of the key's numbers, the data and the signature.
#[verifier::external_body]
fn pss_verify_sha512(key: &rsa::RsaPublicKey, data: &[u8], sig: &rsa::pss::Signature) -> (r: bool)
    ensures
        r == rsa_pss_accepts(
            HashAlgorithm::Sha512,
            rsa_public_numbers(*key),
            data@,
            rsa_pss_signature_bytes(*sig),
        ),
{
    let vk = rsa::pss::VerifyingKey::<sha2::Sha512>::new(key.clone());
    signature::Verifier::verify(&vk, data, sig).is_ok()
}

/// Calls `rsa::pkcs1v15::SigningKey::<sha3::Sha3_224>::try_sign`. Claims that its
/// outcome is a function of key and data, and that a signature is as long as the
/// modulus and accepted under the key's public half.
#[verifier::external_body]
fn pkcs1v15_sign_sha3_224(key: &rsa::RsaPrivateKey, data: &[u8]) -> (r: Option<Vec<u8>>)
    requires
        rsa_signs_soon(*key),
    ensures
        option_view(r) == rsa_pkcs1v15_signature(HashAlgorithm::Sha3_224, *key, data@),
        r matches Some(sig) ==> sig@.len() == modulus_len(rsa_private_numbers(*key).0),
        r matches Some(sig) ==> rsa_pkcs1v15_accepts(
            HashAlgorithm::Sha3_224,
            rsa_private_numbers(*key),
            data@,
            sig@,
        ),
{
    let sk = rsa::pkcs1v15::SigningKey::<sha3::Sha3_224>::new(key.clone());
    signature::Signer::try_sign(&sk, data).ok().map(|s| signature::SignatureEncoding::to_vec(&s))
}

/// Calls `rsa::pkcs1v15::VerifyingKey::<sha3::Sha3_224>::verify`. Claims that the
/// answer is a function of the key's numbers, the data and the signature.
#[verifier::external_body]
fn pkcs1v15_verify_sha3_224(key: &rsa::RsaPublicKey, data: &[u8], sig: &rsa::pkcs1v15::Signature) -> (r: bool)
    ensures
        r == rsa_pkcs1v15_accepts(
            HashAlgorithm::Sha3_224,
            rsa_public_numbers(*key),
            data@,
            rsa_pkcs1v15_signature_bytes(*sig),
        ),
{
    let vk = rsa::pkcs1v15::VerifyingKey::<sha3::Sha3_224>::new(key.clone());
    signature::Verifier::verify(&vk, data, sig).is_ok()
}

/// Calls `rsa::pss::SigningKey::<sha3::Sha3_224>::try_sign_with_rng` with the system's
/// random numbers. Claims that it signs where the modulus has room and its
/// factors are different primes (the constructors of the key check the modulus
/// and the exponents against the factors, but not that these are prime), and that
/// a signature is as long as the modulus and accepted under the key's public half.
#[verifier::external_body]
fn pss_sign_sha3_224(key: &rsa::RsaPrivateKey, data: &[u8]) -> (r: core::result::Result<Vec<u8>, String>)
    requires
        rsa_signs_soon(*key),
    ensures
        pss_always_signs(
            HashAlgorithm::Sha3_224,
            rsa_private_numbers(*key).0,
            rsa_factors(*key),
        ) ==> r is Ok,
        r matches Ok(sig) ==> sig@.len() == modulus_len(rsa_private_numbers(*key).0),
        r matches Ok(sig) ==> rsa_pss_accepts(
            HashAlgorithm::Sha3_224,
            rsa_private_numbers(*key),
            data@,
            sig@,
        ),
{
    let sk = rsa::pss::SigningKey::<sha3::Sha3_224>::new(key.clone());
    signature::RandomizedSigner::try_sign_with_rng(&sk, &mut rand::rngs::OsRng, data)
        .map(|s| signature::SignatureEncoding::to_vec(&s))
        .map_err(|e| e.to_string())
}

/// Calls `rsa::pss::VerifyingKey::<sha3::Sha3_224>::verify`. Claims that the answer is
/// a function of the key's numbers, the data and the signature.
#[verifier::external_body]
fn pss_verify_sha3_224(key: &rsa::RsaPublicKey, data: &[u8], sig: &rsa::pss::Signature) -> (r: bool)
    ensures
        r == rsa_pss_accepts(
            HashAlgorithm::Sha3_224,
            rsa_public_numbers(*key),
            data@,
            rsa_pss_signature_bytes(*sig),
        ),
{
    let vk = rsa::pss::VerifyingKey::<sha3::Sha3_224>::new(key.clone());
    signature::Verifier::verify(&vk, data, sig).is_ok()
}

/// Calls `rsa::pkcs1v15::SigningKey::<sha3::Sha3_256>::try_sign`. Claims that its
/// outcome is a function of key and data, and that a signature is as long as the
/// modulus and accepted under the key's public half.
#[verifier::external_body]
fn pkcs1v15_sign_sha3_256(key: &rsa::RsaPrivateKey, data: &[u8]) -> (r: Option<Vec<u8>>)
    requires
        rsa_signs_soon(*key),
    ensures
        option_view(r) == rsa_pkcs1v15_signature(HashAlgorithm::Sha3_256, *key, data@),
        r matches Some(sig) ==> sig@.len() == modulus_len(rsa_private_numbers(*key).0),
        r matches Some(sig) ==> rsa_pkcs1v15_accepts(
            HashAlgorithm::Sha3_256,
            rsa_private_numbers(*key),
            data@,
            sig@,
        ),
{
    let sk = rsa::pkcs1v15::SigningKey::<sha3::Sha3_256>::new(key.clone());
    signature::Signer::try_sign(&sk, data).ok().map(|s| signature::SignatureEncoding::to_vec(&s))
}

/// Calls `rsa::pkcs1v15::VerifyingKey::<sha3::Sha3_256>::verify`. Claims that the
/// answer is a function of the key's numbers, the data and the signature.
#[verifier::external_body]
fn pkcs1v15_verify_sha3_256(key: &rsa::RsaPublicKey, data: &[u8], sig: &rsa::pkcs1v15::Signature) -> (r: bool)
    ensures
        r == rsa_pkcs1v15_accepts(
            HashAlgorithm::Sha3_256,
            rsa_public_numbers(*key),
            data@,
            rsa_pkcs1v15_signature_bytes(*sig),
        ),
{
    let vk = rsa::pkcs1v15::VerifyingKey::<sha3::Sha3_256>::new(key.clone());
    signature::Verifier::verify(&vk, data, sig).is_ok()
}

/// Calls `rsa::pss::SigningKey::<sha3::Sha3_256>::try_sign_with_rng` with the system's
/// random numbers. Claims that it signs where the modulus has room and its
/// factors are different primes (the constructors of the key check the modulus
/// and the exponents against the factors, but not that these are prime), and that
/// a signature is as long as the modulus and accepted under the key's public half.
#[verifier::external_body]
fn pss_sign_sha3_256(key: &rsa::RsaPrivateKey, data: &[u8]) -> (r: core::result::Result<Vec<u8>, String>)
    requires
        rsa_signs_soon(*key),
    ensures
        pss_always_signs(
            HashAlgorithm::Sha3_256,
            rsa_private_numbers(*key).0,
            rsa_factors(*key),
        ) ==> r is Ok,
        r matches Ok(sig) ==> sig@.len() == modulus_len(rsa_private_numbers(*key).0),
        r matches Ok(sig) ==> rsa_pss_accepts(
            HashAlgorithm::Sha3_256,
            rsa_private_numbers(*key),
            data@,
            sig@,
        ),
{
    let sk = rsa::pss::SigningKey::<sha3::Sha3_256>::new(key.clone());
    signature::RandomizedSigner::try_sign_with_rng(&sk, &mut rand::rngs::OsRng, data)
        .map(|s| signature::SignatureEncoding::to_vec(&s))
        .map_err(|e| e.to_string())
}

/// Calls `rsa::pss::VerifyingKey::<sha3::Sha3_256>::verify`. Claims that the answer is
/// a function of the key's numbers, the data and the signature.
#[verifier::external_body]
fn pss_verify_sha3_256(key: &rsa::RsaPublicKey, data: &[u8], sig: &rsa::pss::Signature) -> (r: bool)
    ensures
        r == rsa_pss_accepts(
            HashAlgorithm::Sha3_256,
            rsa_public_numbers(*key),
            data@,
            rsa_pss_signature_bytes(*sig),
        ),
{
    let vk = rsa::pss::VerifyingKey::<sha3::Sha3_256>::new(key.clone());
    signature::Verifier::verify(&vk, data, sig).is_ok()
}

/// Calls `rsa::pkcs1v15::SigningKey::<sha3::Sha3_384>::try_sign`. Claims that its
/// outcome is a function of key and data, and that a signature is as long as the
/// modulus and accepted under the key's public half.
#[verifier::external_body]
fn pkcs1v15_sign_sha3_384(key: &rsa::RsaPrivateKey, data: &[u8]) -> (r: Option<Vec<u8>>)
    requires
        rsa_signs_soon(*key),
    ensures
        option_view(r) == rsa_pkcs1v15_signature(HashAlgorithm::Sha3_384, *key, data@),
        r matches Some(sig) ==> sig@.len() == modulus_len(rsa_private_numbers(*key).0),
        r matches Some(sig) ==> rsa_pkcs1v15_accepts(
            HashAlgorithm::Sha3_384,
            rsa_private_numbers(*key),
            data@,
            sig@,
        ),
{
    let sk = rsa::pkcs1v15::SigningKey::<sha3::Sha3_384>::new(key.clone());
    signature::Signer::try_sign(&sk, data).ok().map(|s| signature::SignatureEncoding::to_vec(&s))
}

/// Calls `rsa::pkcs1v15::VerifyingKey::<sha3::Sha3_384>::verify`. Claims that the
/// answer is a function of the key's numbers, the data and the signature.
#[verifier::external_body]
fn pkcs1v15_verify_sha3_384(key: &rsa::RsaPublicKey, data: &[u8], sig: &rsa::pkcs1v15::Signature) -> (r: bool)
    ensures
        r == rsa_pkcs1v15_accepts(
            HashAlgorithm::Sha3_384,
            rsa_public_numbers(*key),
            data@,
            rsa_pkcs1v15_signature_bytes(*sig),
        ),
{
    let vk = rsa::pkcs1v15::VerifyingKey::<sha3::Sha3_384>::new(key.clone());
    signature::Verifier::verify(&vk, data, sig).is_ok()
}

/// Calls `rsa::pss::SigningKey::<sha3::Sha3_384>::try_sign_with_rng` with the system's
/// random numbers. Claims that it signs where the modulus has room and its
/// factors are different primes (the constructors of the key check the modulus
/// and the exponents against the factors, but not that these are prime), and that
/// a signature is as long as the modulus and accepted under the key's public half.
#[verifier::external_body]
fn pss_sign_sha3_384(key: &rsa::RsaPrivateKey, data: &[u8]) -> (r: core::result::Result<Vec<u8>, String>)
    requires
        rsa_signs_soon(*key),
    ensures
        pss_always_signs(
            HashAlgorithm::Sha3_384,
            rsa_private_numbers(*key).0,
            rsa_factors(*key),
        ) ==> r is Ok,
        r matches Ok(sig) ==> sig@.len() == modulus_len(rsa_private_numbers(*key).0),
        r matches Ok(sig) ==> rsa_pss_accepts(
            HashAlgorithm::Sha3_384,
            rsa_private_numbers(*key),
            data@,
            sig@,
        ),
{
    let sk = rsa::pss::SigningKey::<sha3::Sha3_384>::new(key.clone());
    signature::RandomizedSigner::try_sign_with_rng(&sk, &mut rand::rngs::OsRng, data)
        .map(|s| signature::SignatureEncoding::to_vec(&s))
        .map_err(|e| e.to_string())
}

/// Calls `rsa::pss::VerifyingKey::<sha3::Sha3_384>::verify`. Claims that the answer is
/// a function of the key's numbers, the data and the signature.
#[verifier::external_body]
fn pss_verify_sha3_384(key: &rsa::RsaPublicKey, data: &[u8], sig: &rsa::pss::Signature) -> (r: bool)
    ensures
        r == rsa_pss_accepts(
            HashAlgorithm::Sha3_384,
            rsa_public_numbers(*key),
            data@,
            rsa_pss_signature_bytes(*sig),
        ),
{
    let vk = rsa::pss::VerifyingKey::<sha3::Sha3_384>::new(key.clone());
    signature::Verifier::verify(&vk, data, sig).is_ok()
}

/// Calls `rsa::pkcs1v15::SigningKey::<sha3::Sha3_512>::try_sign`. Claims that its
/// outcome is a function of key and data, and that a signature is as long as the
/// modulus and accepted under the key's public half.
#[verifier::external_body]
fn pkcs1v15_sign_sha3_512(key: &rsa::RsaPrivateKey, data: &[u8]) -> (r: Option<Vec<u8>>)
    requires
        rsa_signs_soon(*key),
    ensures
        option_view(r) == rsa_pkcs1v15_signature(HashAlgorithm::Sha3_512, *key, data@),
        r matches Some(sig) ==> sig@.len() == modulus_len(rsa_private_numbers(*key).0),
        r matches Some(sig) ==> rsa_pkcs1v15_accepts(
            HashAlgorithm::Sha3_512,
            rsa_private_numbers(*key),
            data@,
            sig@,
        ),
{
    let sk = rsa::pkcs1v15::SigningKey::<sha3::Sha3_512>::new(key.clone());
    signature::Signer::try_sign(&sk, data).ok().map(|s| signature::SignatureEncoding::to_vec(&s))
}

/// Calls `rsa::pkcs1v15::VerifyingKey::<sha3::Sha3_512>::verify`. Claims that the
/// answer is a function of the key's numbers, the data and the signature.
#[verifier::external_body]
fn pkcs1v15_verify_sha3_512(key: &rsa::RsaPublicKey, data: &[u8], sig: &rsa::pkcs1v15::Signature) -> (r: bool)
    ensures
        r == rsa_pkcs1v15_accepts(
            HashAlgorithm::Sha3_512,
            rsa_public_numbers(*key),
            data@,
            rsa_pkcs1v15_signature_bytes(*sig),
        ),
{
    let vk = rsa::pkcs1v15::VerifyingKey::<sha3::Sha3_512>::new(key.clone());
    signature::Verifier::verify(&vk, data, sig).is_ok()
}

/// Calls `rsa::pss::SigningKey::<sha3::Sha3_512>::try_sign_with_rng` with the system's
/// random numbers. Claims that it signs where the modulus has room and its
/// factors are different primes (the constructors of the key check the modulus
/// and the exponents against the factors, but not that these are prime), and that
/// a signature is as long as the modulus and accepted under the key's public half.
#[verifier::external_body]
fn pss_sign_sha3_512(key: &rsa::RsaPrivateKey, data: &[u8]) -> (r: core::result::Result<Vec<u8>, String>)
    requires
        rsa_signs_soon(*key),
    ensures
        pss_always_signs(
            HashAlgorithm::Sha3_512,
            rsa_private_numbers(*key).0,
            rsa_factors(*key),
        ) ==> r is Ok,
        r matches Ok(sig) ==> sig@.len() == modulus_len(rsa_private_numbers(*key).0),
        r matches Ok(sig) ==> rsa_pss_accepts(
            HashAlgorithm::Sha3_512,
            rsa_private_numbers(*key),
            data@,
            sig@,
        ),
{
    let sk = rsa::pss::SigningKey::<sha3::Sha3_512>::new(key.clone());
    signature::RandomizedSigner::try_sign_with_rng(&sk, &mut rand::rngs::OsRng, data)
        .map(|s| signature::SignatureEncoding::to_vec(&s))
        .map_err(|e| e.to_string())
}

/// Calls `rsa::pss::VerifyingKey::<sha3::Sha3_512>::verify`. Claims that the answer is
/// a function of the key's numbers, the data and the signature.
#[verifier::external_body]
fn pss_verify_sha3_512(key: &rsa::RsaPublicKey, data: &[u8], sig: &rsa::pss::Signature) -> (r: bool)
    ensures
        r == rsa_pss_accepts(
            HashAlgorithm::Sha3_512,
            rsa_public_numbers(*key),
            data@,
            rsa_pss_signature_bytes(*sig),
        ),
{
    let vk = rsa::pss::VerifyingKey::<sha3::Sha3_512>::new(key.clone());
    signature::Verifier::verify(&vk, data, sig).is_ok()
}

/// Calls `rsa::pkcs1v15::SigningKey::<md5::Md5>::try_sign`. Claims that its
/// outcome is a function of key and data, and that a signature is as long as the
/// modulus and accepted under the key's public half.
#[verifier::external_body]
fn pkcs1v15_sign_md5(key: &rsa::RsaPrivateKey, data: &[u8]) -> (r: Option<Vec<u8>>)
    requires
        rsa_signs_soon(*key),
    ensures
        option_view(r) == rsa_pkcs1v15_signature(HashAlgorithm::Md5, *key, data@),
        r matches Some(sig) ==> sig@.len() == modulus_len(rsa_private_numbers(*key).0),
        r matches Some(sig) ==> rsa_pkcs1v15_accepts(
            HashAlgorithm::Md5,
            rsa_private_numbers(*key),
            data@,
            sig@,
        ),
{
    let sk = rsa::pkcs1v15::SigningKey::<md5::Md5>::new(key.clone());
    signature::Signer::try_sign(&sk, data).ok().map(|s| signature::SignatureEncoding::to_vec(&s))
}

/// Calls `rsa::pkcs1v15::VerifyingKey::<md5::Md5>::verify`. Claims that the
/// answer is a function of the key's numbers, the data and the signature.
#[verifier::external_body]
fn pkcs1v15_verify_md5(key: &rsa::RsaPublicKey, data: &[u8], sig: &rsa::pkcs1v15::Signature) -> (r: bool)
    ensures
        r == rsa_pkcs1v15_accepts(
            HashAlgorithm::Md5,
            rsa_public_numbers(*key),
            data@,
            rsa_pkcs1v15_signature_bytes(*sig),
        ),
{
    let vk = rsa::pkcs1v15::VerifyingKey::<md5::Md5>::new(key.clone());
    signature::Verifier::verify(&vk, data, sig).is_ok()
}

/// Calls `rsa::pss::SigningKey::<md5::Md5>::try_sign_with_rng` with the system's
/// random numbers. Claims that it signs where the modulus has room and its
/// factors are different primes (the constructors of the key check the modulus
/// and the exponents against the factors, but not that these are prime), and that
/// a signature is as long as the modulus and accepted under the key's public half.
#[verifier::external_body]
fn pss_sign_md5(key: &rsa::RsaPrivateKey, data: &[u8]) -> (r: core::result::Result<Vec<u8>, String>)
    requires
        rsa_signs_soon(*key),
    ensures
        pss_always_signs(
            HashAlgorithm::Md5,
            rsa_private_numbers(*key).0,
            rsa_factors(*key),
        ) ==> r is Ok,
        r matches Ok(sig) ==> sig@.len() == modulus_len(rsa_private_numbers(*key).0),
        r matches Ok(sig) ==> rsa_pss_accepts(
            HashAlgorithm::Md5,
            rsa_private_numbers(*key),
            data@,
            sig@,
        ),
{
    let sk = rsa::pss::SigningKey::<md5::Md5>::new(key.clone());
    signature::RandomizedSigner::try_sign_with_rng(&sk, &mut rand::rngs::OsRng, data)
        .map(|s| signature::SignatureEncoding::to_vec(&s))
        .map_err(|e| e.to_string())
}

/// Calls `rsa::pss::VerifyingKey::<md5::Md5>::verify`. Claims that the answer is
/// a function of the key's numbers, the data and the signature.
#[verifier::external_body]
fn pss_verify_md5(key: &rsa::RsaPublicKey, data: &[u8], sig: &rsa::pss::Signature) -> (r: bool)
    ensures
        r == rsa_pss_accepts(
            HashAlgorithm::Md5,
            rsa_public_numbers(*key),
            data@,
            rsa_pss_signature_bytes(*sig),
        ),
{
    let vk = rsa::pss::VerifyingKey::<md5::Md5>::new(key.clone());
    signature::Verifier::verify(&vk, data, sig).is_ok()
}

/// Calls `rsa::pkcs1v15::SigningKey::<ripemd::Ripemd160>::try_sign`. Claims that its
/// outcome is a function of key and data, and that a signature is as long as the
/// modulus and accepted under the key's public half.
#[verifier::external_body]
fn pkcs1v15_sign_ripemd160(key: &rsa::RsaPrivateKey, data: &[u8]) -> (r: Option<Vec<u8>>)
    requires
        rsa_signs_soon(*key),
    ensures
        option_view(r) == rsa_pkcs1v15_signature(HashAlgorithm::Ripemd160, *key, data@),
        r matches Some(sig) ==> sig@.len() == modulus_len(rsa_private_numbers(*key).0),
        r matches Some(sig) ==> rsa_pkcs1v15_accepts(
            HashAlgorithm::Ripemd160,
            rsa_private_numbers(*key),
            data@,
            sig@,
        ),
{
    let sk = rsa::pkcs1v15::SigningKey::<ripemd::Ripemd160>::new(key.clone());
    signature::Signer::try_sign(&sk, data).ok().map(|s| signature::SignatureEncoding::to_vec(&s))
}

/// Calls `rsa::pkcs1v15::VerifyingKey::<ripemd::Ripemd160>::verify`. Claims that the
/// answer is a function of the key's numbers, the data and the signature.
#[verifier::external_body]
fn pkcs1v15_verify_ripemd160(key: &rsa::RsaPublicKey, data: &[u8], sig: &rsa::pkcs1v15::Signature) -> (r: bool)
    ensures
        r == rsa_pkcs1v15_accepts(
            HashAlgorithm::Ripemd160,
            rsa_public_numbers(*key),
            data@,
            rsa_pkcs1v15_signature_bytes(*sig),
        ),
{
    let vk = rsa::pkcs1v15::VerifyingKey::<ripemd::Ripemd160>::new(key.clone());
    signature::Verifier::verify(&vk, data, sig).is_ok()
}

/// Calls `rsa::pss::SigningKey::<ripemd::Ripemd160>::try_sign_with_rng` with the system's
/// random numbers. Claims that it signs where the modulus has room and its
/// factors are different primes (the constructors of the key check the modulus
/// and the exponents against the factors, but not that these are prime), and that
/// a signature is as long as the modulus and accepted under the key's public half.
#[verifier::external_body]
fn pss_sign_ripemd160(key: &rsa::RsaPrivateKey, data: &[u8]) -> (r: core::result::Result<Vec<u8>, String>)
    requires
        rsa_signs_soon(*key),
    ensures
        pss_always_signs(
            HashAlgorithm::Ripemd160,
            rsa_private_numbers(*key).0,
            rsa_factors(*key),
        ) ==> r is Ok,
        r matches Ok(sig) ==> sig@.len() == modulus_len(rsa_private_numbers(*key).0),
        r matches Ok(sig) ==> rsa_pss_accepts(
            HashAlgorithm::Ripemd160,
            rsa_private_numbers(*key),
            data@,
            sig@,
        ),
{
    let sk = rsa::pss::SigningKey::<ripemd::Ripemd160>::new(key.clone());
    signature::RandomizedSigner::try_sign_with_rng(&sk, &mut rand::rngs::OsRng, data)
        .map(|s| signature::SignatureEncoding::to_vec(&s))
        .map_err(|e| e.to_string())
}

/// Calls `rsa::pss::VerifyingKey::<ripemd::Ripemd160>::verify`. Claims that the answer is
/// a function of the key's numbers, the data and the signature.
#[verifier::external_body]
fn pss_verify_ripemd160(key: &rsa::RsaPublicKey, data: &[u8], sig: &rsa::pss::Signature) -> (r: bool)
    ensures
        r == rsa_pss_accepts(
            HashAlgorithm::Ripemd160,
            rsa_public_numbers(*key),
            data@,
            rsa_pss_signature_bytes(*sig),
        ),
{
    let vk = rsa::pss::VerifyingKey::<ripemd::Ripemd160>::new(key.clone());
    signature::Verifier::verify(&vk, data, sig).is_ok()
}

fn pkcs1v15_sign_soon(hash: HashAlgorithm, key: &rsa::RsaPrivateKey, data: &[u8]) -> (r: Option<Vec<u8>>)
    requires
        rsa_signs_soon(*key),
    ensures
        pkcs1v15_signed(hash, *key, data@, option_view(r)),
{
    match hash {
        HashAlgorithm::Sha1 => pkcs1v15_sign_sha1(key, data),
        HashAlgorithm::Sha224 => pkcs1v15_sign_sha224(key, data),
        HashAlgorithm::Sha256 => pkcs1v15_sign_sha256(key, data),
        HashAlgorithm::Sha384 => pkcs1v15_sign_sha384(key, data),
        HashAlgorithm::Sha512 => pkcs1v15_sign_sha512(key, data),
        HashAlgorithm::Sha3_224 => pkcs1v15_sign_sha3_224(key, data),
        HashAlgorithm::Sha3_256 => pkcs1v15_sign_sha3_256(key, data),
        HashAlgorithm::Sha3_384 => pkcs1v15_sign_sha3_384(key, data),
        HashAlgorithm::Sha3_512 => pkcs1v15_sign_sha3_512(key, data),
        HashAlgorithm::Md5 => pkcs1v15_sign_md5(key, data),
        HashAlgorithm::Ripemd160 => pkcs1v15_sign_ripemd160(key, data),
    }
}

fn pkcs1v15_try_sign(hash: HashAlgorithm, key: &rsa::RsaPrivateKey, data: &[u8]) -> (r: Option<Vec<u8>>)
    ensures
        pkcs1v15_signed(hash, *key, data@, option_view(r)),
{
    if signs_soon(key) {
        pkcs1v15_sign_soon(hash, key, data)
    } else {
        pkcs1v15_sign_soon(hash, &clear_precomputed(key), data)
    }
}

fn pss_sign_soon(hash: HashAlgorithm, key: &rsa::RsaPrivateKey, data: &[u8]) -> (r: core::result::Result<
    Vec<u8>,
    String,
>)
    requires
        rsa_signs_soon(*key),
    ensures
        pss_signed(hash, *key, data@, r),
{
    match hash {
        HashAlgorithm::Sha1 => pss_sign_sha1(key, data),
        HashAlgorithm::Sha224 => pss_sign_sha224(key, data),
        HashAlgorithm::Sha256 => pss_sign_sha256(key, data),
        HashAlgorithm::Sha384 => pss_sign_sha384(key, data),
        HashAlgorithm::Sha512 => pss_sign_sha512(key, data),
        HashAlgorithm::Sha3_224 => pss_sign_sha3_224(key, data),
        HashAlgorithm::Sha3_256 => pss_sign_sha3_256(key, data),
        HashAlgorithm::Sha3_384 => pss_sign_sha3_384(key, data),
        HashAlgorithm::Sha3_512 => pss_sign_sha3_512(key, data),
        HashAlgorithm::Md5 => pss_sign_md5(key, data),
        HashAlgorithm::Ripemd160 => pss_sign_ripemd160(key, data),
    }
}

fn pss_try_sign(hash: HashAlgorithm, key: &rsa::RsaPrivateKey, data: &[u8]) -> (r: core::result::Result<
    Vec<u8>,
    String,
>)
    ensures
        pss_signed(hash, *key, data@, r),
{
    if signs_soon(key) {
        pss_sign_soon(hash, key, data)
    } else {
        pss_sign_soon(hash, &clear_precomputed(key), data)
    }
}

/// Whether signing `data` by PKCS#1 v1.5 gives an outcome: where the key is an
/// RSA private key, it must be able to sign (its modulus must have room for the
/// encoded hash, and its factors must be prime).
pub open spec fn pkcs1v15_can_sign(hash: HashAlgorithm, key: SoftwareKey, data: Seq<u8>) -> bool {
    key matches SoftwareKey::Rsa { private: Some(sk), .. } ==> rsa_pkcs1v15_signature(
        hash,
        rsa_signing_key(sk),
        data,
    ) is Some
}

/// The possible outcomes of PKCS#1 v1.5 signing.
pub open spec fn pkcs1v15_sign_outcome(
    hash: HashAlgorithm,
    key: SoftwareKey,
    data: Seq<u8>,
    r: core::result::Result<Seq<u8>, ErrorView>,
) -> bool {
    match key {
        SoftwareKey::Rsa { private: Some(sk), .. } => {
            &&& r matches Ok(sig)
            &&& pkcs1v15_signed(hash, sk, data, Some(sig))
        },
        _ => r == core::result::Result::<Seq<u8>, ErrorView>::Err(
            ErrorView::Key("RSA private key required"@),
        ),
    }
}

/// Signs by PKCS#1 v1.5. There is no outcome exactly where the key cannot sign.
pub fn rsa_pkcs1v15_checked_sign(key: &SoftwareKey, hash: HashAlgorithm, data: &[u8]) -> (r: Option<
    Result<Vec<u8>>,
>)
    ensures
        r is Some <==> pkcs1v15_can_sign(hash, *key, data@),
        *key matches SoftwareKey::Rsa { private: Some(sk), .. } ==> are_distinct_primes(
            rsa_factors(sk),
        ) ==> (r is Some <==> rsa_pkcs1v15_signature(hash, sk, data@) is Some),
        r matches Some(o) ==> pkcs1v15_sign_outcome(hash, *key, data@, view_outcome(o)),
{
    match key {
        SoftwareKey::Rsa { private: Some(private_key), .. } => {
            match pkcs1v15_try_sign(hash, private_key, data) {
                Some(sig) => Some(Ok(sig)),
                None => None,
            }
        },
        _ => Some(Err(Error::Key("RSA private key required".to_owned()))),
    }
}

/// Signs by PKCS#1 v1.5.
pub fn rsa_pkcs1v15_sign(key: &SoftwareKey, hash: HashAlgorithm, data: &[u8]) -> (r: Result<Vec<u8>>)
    requires
        pkcs1v15_can_sign(hash, *key, data@),
    ensures
        pkcs1v15_sign_outcome(hash, *key, data@, view_outcome(r)),
{
    match rsa_pkcs1v15_checked_sign(key, hash, data) {
        Some(r) => r,
        None => vstd::pervasive::unreached(),
    }
}

/// The answer of PKCS#1 v1.5 verification.
pub open spec fn pkcs1v15_verify_outcome(
    hash: HashAlgorithm,
    key: SoftwareKey,
    data: Seq<u8>,
    sig: Seq<u8>,
) -> core::result::Result<bool, ErrorView> {
    match key {
        SoftwareKey::Rsa { public, .. } => Ok(
            rsa_pkcs1v15_accepts(hash, rsa_public_numbers(public), data, sig),
        ),
        _ => Err(ErrorView::Key("RSA key required"@)),
    }
}

/// Verifies a PKCS#1 v1.5 signature.
pub fn rsa_pkcs1v15_verify(key: &SoftwareKey, hash: HashAlgorithm, data: &[u8], sig_bytes: &[u8]) -> (r: Result<
    bool,
>)
    ensures
        outcome(r) == pkcs1v15_verify_outcome(hash, *key, data@, sig_bytes@),
{
    let public_key: &rsa::RsaPublicKey = match extract_rsa_public(key) {
        Ok(k) => k,
        Err(e) => return Err(e),
    };
    let sig: rsa::pkcs1v15::Signature = match pkcs1v15_signature(sig_bytes) {
        Ok(s) => s,
        Err(e) => return Err(Error::Crypto(join2("invalid RSA signature: ", e.as_str()))),
    };
    Ok(match hash {
        HashAlgorithm::Sha1 => pkcs1v15_verify_sha1(public_key, data, &sig),
        HashAlgorithm::Sha224 => pkcs1v15_verify_sha224(public_key, data, &sig),
        HashAlgorithm::Sha256 => pkcs1v15_verify_sha256(public_key, data, &sig),
        HashAlgorithm::Sha384 => pkcs1v15_verify_sha384(public_key, data, &sig),
        HashAlgorithm::Sha512 => pkcs1v15_verify_sha512(public_key, data, &sig),
        HashAlgorithm::Sha3_224 => pkcs1v15_verify_sha3_224(public_key, data, &sig),
        HashAlgorithm::Sha3_256 => pkcs1v15_verify_sha3_256(public_key, data, &sig),
        HashAlgorithm::Sha3_384 => pkcs1v15_verify_sha3_384(public_key, data, &sig),
        HashAlgorithm::Sha3_512 => pkcs1v15_verify_sha3_512(public_key, data, &sig),
        HashAlgorithm::Md5 => pkcs1v15_verify_md5(public_key, data, &sig),
        HashAlgorithm::Ripemd160 => pkcs1v15_verify_ripemd160(public_key, data, &sig),
    })
}

/// Whether signing by PSS gives an outcome: where the key is an RSA private key,
/// its modulus must have room for the encoding.
pub open spec fn pss_can_sign(hash: HashAlgorithm, key: SoftwareKey) -> bool {
    key matches SoftwareKey::Rsa { private: Some(sk), .. } ==> pss_fits(
        hash,
        rsa_private_numbers(sk).0,
    )
}

/// The possible outcomes of PSS signing. The salt is drawn at random, so a key
/// and data have many signatures; each is as long as the modulus and accepted under
/// the key's public half.
/// Only a key whose factors are not different primes can fail, for some salts:
/// that is reported as a [`Error::Crypto`].
pub open spec fn pss_sign_outcome(
    hash: HashAlgorithm,
    key: SoftwareKey,
    data: Seq<u8>,
    r: core::result::Result<Seq<u8>, ErrorView>,
) -> bool {
    match key {
        SoftwareKey::Rsa { private: Some(sk), .. } => match r {
            Ok(sig) => {
                &&& sig.len() == modulus_len(rsa_private_numbers(sk).0)
                &&& rsa_pss_accepts(hash, rsa_private_numbers(sk), data, sig)
            },
            Err(e) => {
                &&& !are_distinct_primes(rsa_factors(sk))
                &&& exists|text: Seq<char>|
                    e == ErrorView::Crypto(#[trigger] ("RSA-PSS sign: "@ + text))
            },
        },
        _ => r == core::result::Result::<Seq<u8>, ErrorView>::Err(
            ErrorView::Key("RSA private key required for PSS"@),
        ),
    }
}

fn pss_has_room(hash: HashAlgorithm, key: &rsa::RsaPrivateKey) -> (r: bool)
    ensures
        r == pss_fits(hash, rsa_private_numbers(*key).0),
{
    let hash_len: usize = crate::digest::output_size(hash);
    let bits: usize = modulus_bits(key);
    let needed: usize = 2 * hash_len + 2;
    // Dividing by 8 before adding avoids overflow: (bits + 6) / 8.
    let len: usize = bits / 8 + (bits % 8 + 6) / 8;
    len >= needed
}

/// Signs by PSS. There is no outcome exactly where the modulus is too short.
pub fn rsa_pss_checked_sign(key: &SoftwareKey, hash: HashAlgorithm, data: &[u8]) -> (r: Option<
    Result<Vec<u8>>,
>)
    ensures
        r is Some <==> pss_can_sign(hash, *key),
        r matches Some(o) ==> pss_sign_outcome(hash, *key, data@, view_outcome(o)),
{
    match key {
        SoftwareKey::Rsa { private: Some(private_key), .. } => {
            if !pss_has_room(hash, private_key) {
                return None;
            }
            let signed: core::result::Result<Vec<u8>, String> = pss_try_sign(
                hash,
                private_key,
                data,
            );
            let ghost reply = signed;
            let r: Result<Vec<u8>> = crypto_reply("RSA-PSS sign: ", signed);
            assert(reply matches Err(e) ==> view_outcome(r) == core::result::Result::<
                Seq<u8>,
                ErrorView,
            >::Err(ErrorView::Crypto("RSA-PSS sign: "@ + e@)));
            Some(r)
        },
        _ => Some(Err(Error::Key("RSA private key required for PSS".to_owned()))),
    }
}

/// Signs by PSS, with a random salt as long as the hash.
pub fn rsa_pss_sign(key: &SoftwareKey, hash: HashAlgorithm, data: &[u8]) -> (r: Result<Vec<u8>>)
    requires
        pss_can_sign(hash, *key),
    ensures
        pss_sign_outcome(hash, *key, data@, view_outcome(r)),
{
    match rsa_pss_checked_sign(key, hash, data) {
        Some(r) => r,
        None => vstd::pervasive::unreached(),
    }
}

/// The answer of PSS verification.
pub open spec fn pss_verify_outcome(
    hash: HashAlgorithm,
    key: SoftwareKey,
    data: Seq<u8>,
    sig: Seq<u8>,
) -> core::result::Result<bool, ErrorView> {
    match key {
        SoftwareKey::Rsa { public, .. } => Ok(
            rsa_pss_accepts(hash, rsa_public_numbers(public), data, sig),
        ),
        _ => Err(ErrorView::Key("RSA key required"@)),
    }
}

/// Verifies a PSS signature.
pub fn rsa_pss_verify(key: &SoftwareKey, hash: HashAlgorithm, data: &[u8], sig_bytes: &[u8]) -> (r: Result<
    bool,
>)
    ensures
        outcome(r) == pss_verify_outcome(hash, *key, data@, sig_bytes@),
{
    let public_key: &rsa::RsaPublicKey = match extract_rsa_public(key) {
        Ok(k) => k,
        Err(e) => return Err(e),
    };
    let sig: rsa::pss::Signature = match pss_signature(sig_bytes) {
        Ok(s) => s,
        Err(e) => return Err(Error::Crypto(join2("invalid RSA-PSS signature: ", e.as_str()))),
    };
    Ok(match hash {
        HashAlgorithm::Sha1 => pss_verify_sha1(public_key, data, &sig),
        HashAlgorithm::Sha224 => pss_verify_sha224(public_key, data, &sig),
        HashAlgorithm::Sha256 => pss_verify_sha256(public_key, data, &sig),
        HashAlgorithm::Sha384 => pss_verify_sha384(public_key, data, &sig),
        HashAlgorithm::Sha512 => pss_verify_sha512(public_key, data, &sig),
        HashAlgorithm::Sha3_224 => pss_verify_sha3_224(public_key, data, &sig),
        HashAlgorithm::Sha3_256 => pss_verify_sha3_256(public_key, data, &sig),
        HashAlgorithm::Sha3_384 => pss_verify_sha3_384(public_key, data, &sig),
        HashAlgorithm::Sha3_512 => pss_verify_sha3_512(public_key, data, &sig),
        HashAlgorithm::Md5 => pss_verify_md5(public_key, data, &sig),
        HashAlgorithm::Ripemd160 => pss_verify_ripemd160(public_key, data, &sig),
    })
}

/// Whether both halves of an RSA key are there and belong together.
pub open spec fn rsa_is_pair(key: SoftwareKey) -> bool {
    &&& key matches SoftwareKey::Rsa { private: Some(sk), public }
    &&& rsa_public_numbers(public) == rsa_private_numbers(sk)
}

/// The key pair of an RSA private key.
pub fn rsa_key_pair(private_key: rsa::RsaPrivateKey) -> (r: SoftwareKey)
    ensures
        rsa_is_pair(r),
        r matches SoftwareKey::Rsa { private: Some(sk), .. } && sk == private_key,
{
    let public: rsa::RsaPublicKey = to_public_key(&private_key);
    SoftwareKey::Rsa { private: Some(private_key), public }
}

/// The RSA public key inside `key`.
pub fn extract_rsa_public(key: &SoftwareKey) -> (r: Result<&rsa::RsaPublicKey>)
    ensures
        match *key {
            SoftwareKey::Rsa { public, .. } => r matches Ok(k) && *k == public,
            _ => r matches Err(e) && e@ == ErrorView::Key("RSA key required"@),
        },
{
    match key {
        SoftwareKey::Rsa { public, .. } => Ok(public),
        _ => Err(Error::Key("RSA key required".to_owned())),
    }
}

} // verus!
