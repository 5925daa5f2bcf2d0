//! What a signer and a verifier do, said of their key, their context, the data and
//! the result.
use crate::algorithm::{
    EcCurve, HashAlgorithm, MlDsaVariant, PqAlgorithm, SignatureAlgorithm, SlhDsaVariant,
};
use crate::bytes::{
    be_value, bit_len, lemma_be_bytes_of_value, lemma_bits_fit_bytes, lemma_value_of_be_bytes,
    lemma_zeros_in_front,
};
use crate::digest::hash_of;
use crate::error::{Error, ErrorView, Result};
use crate::key::{ec_public_point, SoftwareKey};
use crate::software::dsa::{
    dsa_accepts, dsa_secret_number, dsa_sig_to_raw, dsa_sign, dsa_signature, dsa_signing_numbers,
    dsa_verify, dsa_verifying_numbers, raw_to_dsa_sig, DsaNumbers,
};
use crate::software::ecdsa::{
    ecdsa_accepts, ecdsa_sign, ecdsa_signature, ecdsa_verify, raw_to_ecdsa_sig,
};
use crate::software::ed25519::{
    ed25519_accepts, ed25519_public, ed25519_public_bytes, ed25519_secret, ed25519_sign,
    ed25519_signature, ed25519_verify, le_value,
};
use crate::software::hmac::{hmac_sign, hmac_verify};
use crate::software::ml_dsa::{pq_ml_dsa_sign_dispatch, pq_ml_dsa_verify_dispatch};
use crate::software::rsa::{
    are_distinct_primes, extract_rsa_public, rsa_factors, rsa_key_pair, rsa_pkcs1v15_accepts,
    rsa_pkcs1v15_sign, rsa_pkcs1v15_signature, rsa_pkcs1v15_verify, rsa_private_numbers,
    rsa_pss_accepts, rsa_pss_sign, rsa_pss_verify, rsa_public_numbers,
};
use crate::software::sign::{
    is_pq_algorithm, validate_signing_key, validate_verifying_key, SoftwareSigner,
    SoftwareVerifier,
};
use crate::software::slh_dsa::{pq_slh_dsa_sign_dispatch, pq_slh_dsa_verify_dispatch};
use crate::text::decimal_text;
use crate::traits::{Signer, Verifier};
use vstd::prelude::*;

verus! {

/// A signer is made exactly of a key of the algorithm's kind that can sign, and of a
/// context only where the algorithm is post-quantum. It then has just these parts.
pub proof fn signers_are_made_of_fitting_parts(
    algorithm: SignatureAlgorithm,
    key: SoftwareKey,
    context: &[u8],
    r: Result<SoftwareSigner>,
)
    requires
        call_ensures(SoftwareSigner::new_with_pq_context, (algorithm, key, context), r),
    ensures
        r is Ok <==> {
            &&& context@.len() == 0 || algorithm is MlDsa || algorithm is SlhDsa
            &&& match key {
                SoftwareKey::Rsa { private, .. } => private is Some && (algorithm is RsaPkcs1v15
                    || algorithm is RsaPss),
                SoftwareKey::EcP256 { private, .. } => private is Some && algorithm is Ecdsa
                    && algorithm->Ecdsa_0 is P256,
                SoftwareKey::EcP384 { private, .. } => private is Some && algorithm is Ecdsa
                    && algorithm->Ecdsa_0 is P384,
                SoftwareKey::EcP521 { private, .. } => private is Some && algorithm is Ecdsa
                    && algorithm->Ecdsa_0 is P521,
                SoftwareKey::Ed25519 { private, .. } => private is Some && algorithm is Ed25519,
                SoftwareKey::Hmac(secret) => secret@.len() > 0 && algorithm is Hmac,
                SoftwareKey::Dsa { private, .. } => private is Some && algorithm is Dsa,
                SoftwareKey::PostQuantum { algorithm: scheme, private_der, .. } => {
                    &&& private_der is Some
                    &&& match scheme {
                        PqAlgorithm::MlDsa(v) => algorithm == SignatureAlgorithm::MlDsa(v),
                        PqAlgorithm::SlhDsa(v) => algorithm == SignatureAlgorithm::SlhDsa(v),
                    }
                },
            }
        },
        r matches Ok(signer) ==> {
            &&& signer.spec_algorithm() == algorithm
            &&& signer.spec_key() == key
            &&& signer.spec_context() == context@
        },
        r is Err ==> r->Err_0 is Key,
{
}

/// A verifier is made exactly of a key of the algorithm's kind, with or without its
/// private half, and of a context only where the algorithm is post-quantum. It then
/// has just these parts.
pub proof fn verifiers_are_made_of_fitting_parts(
    algorithm: SignatureAlgorithm,
    key: SoftwareKey,
    context: &[u8],
    r: Result<SoftwareVerifier>,
)
    requires
        call_ensures(SoftwareVerifier::new_with_pq_context, (algorithm, key, context), r),
    ensures
        r is Ok <==> {
            &&& context@.len() == 0 || algorithm is MlDsa || algorithm is SlhDsa
            &&& match key {
                SoftwareKey::Rsa { .. } => algorithm is RsaPkcs1v15 || algorithm is RsaPss,
                SoftwareKey::EcP256 { .. } => algorithm is Ecdsa && algorithm->Ecdsa_0 is P256,
                SoftwareKey::EcP384 { .. } => algorithm is Ecdsa && algorithm->Ecdsa_0 is P384,
                SoftwareKey::EcP521 { .. } => algorithm is Ecdsa && algorithm->Ecdsa_0 is P521,
                SoftwareKey::Ed25519 { .. } => algorithm is Ed25519,
                SoftwareKey::Hmac(secret) => secret@.len() > 0 && algorithm is Hmac,
                SoftwareKey::Dsa { .. } => algorithm is Dsa,
                SoftwareKey::PostQuantum { algorithm: scheme, .. } => match scheme {
                    PqAlgorithm::MlDsa(v) => algorithm == SignatureAlgorithm::MlDsa(v),
                    PqAlgorithm::SlhDsa(v) => algorithm == SignatureAlgorithm::SlhDsa(v),
                },
            }
        },
        r matches Ok(verifier) ==> {
            &&& verifier.spec_algorithm() == algorithm
            &&& verifier.spec_key() == key
            &&& verifier.spec_context() == context@
        },
        r is Err ==> r->Err_0 is Key,
{
}

/// Making a signer or a verifier without a context is making it with the empty one,
/// to the parts and to the error's message.
pub proof fn no_context_is_the_empty_one(
    algorithm: SignatureAlgorithm,
    key: SoftwareKey,
    empty: &[u8],
    signer: Result<SoftwareSigner>,
    same_signer: Result<SoftwareSigner>,
    verifier: Result<SoftwareVerifier>,
    same_verifier: Result<SoftwareVerifier>,
)
    requires
        empty@.len() == 0,
        call_ensures(SoftwareSigner::new, (algorithm, key), signer),
        call_ensures(SoftwareSigner::new_with_pq_context, (algorithm, key, empty), same_signer),
        call_ensures(SoftwareVerifier::new, (algorithm, key), verifier),
        call_ensures(SoftwareVerifier::new_with_pq_context, (algorithm, key, empty), same_verifier),
    ensures
        signer is Ok <==> same_signer is Ok,
        signer is Ok ==> {
            &&& signer->Ok_0.spec_algorithm() == algorithm
            &&& signer->Ok_0.spec_key() == key
            &&& signer->Ok_0.spec_context().len() == 0
        },
        signer is Err ==> signer->Err_0@ == same_signer->Err_0@,
        verifier is Ok <==> same_verifier is Ok,
        verifier is Ok ==> {
            &&& verifier->Ok_0.spec_algorithm() == algorithm
            &&& verifier->Ok_0.spec_key() == key
            &&& verifier->Ok_0.spec_context().len() == 0
        },
        verifier is Err ==> verifier->Err_0@ == same_verifier->Err_0@,
{
    assert(empty@ =~= Seq::<u8>::empty());
}

/// The checks of a key say beforehand whether a signer, or a verifier, can be made of
/// it, and with which message not. Only the two post-quantum families take a context.
pub proof fn checks_decide_what_is_made(
    algorithm: &SignatureAlgorithm,
    key: &SoftwareKey,
    can_sign: Result<()>,
    can_verify: Result<()>,
    takes_context: bool,
    signer: Result<SoftwareSigner>,
    verifier: Result<SoftwareVerifier>,
)
    requires
        call_ensures(validate_signing_key, (algorithm, key), can_sign),
        call_ensures(validate_verifying_key, (algorithm, key), can_verify),
        call_ensures(is_pq_algorithm, (algorithm,), takes_context),
        call_ensures(SoftwareSigner::new, (*algorithm, *key), signer),
        call_ensures(SoftwareVerifier::new, (*algorithm, *key), verifier),
    ensures
        can_sign is Ok <==> signer is Ok,
        can_sign is Err ==> can_sign->Err_0@ == signer->Err_0@,
        can_verify is Ok <==> verifier is Ok,
        can_verify is Err ==> can_verify->Err_0@ == verifier->Err_0@,
        can_sign is Ok ==> can_verify is Ok,
        takes_context <==> *algorithm is MlDsa || *algorithm is SlhDsa,
{
}

/// Why a key is refused: what is the matter stands in the message, first the kind of
/// key, then an empty secret or another post-quantum scheme, then a missing private
/// half, and last a context where there can be none.
pub proof fn refusals_say_what_is_the_matter(
    algorithm: SignatureAlgorithm,
    key: SoftwareKey,
    context: &[u8],
    signer: Result<SoftwareSigner>,
    verifier: Result<SoftwareVerifier>,
)
    requires
        call_ensures(SoftwareSigner::new_with_pq_context, (algorithm, key, context), signer),
        call_ensures(SoftwareVerifier::new_with_pq_context, (algorithm, key, context), verifier),
    ensures
        (match key {
            SoftwareKey::Rsa { .. } => !(algorithm is RsaPkcs1v15 || algorithm is RsaPss),
            SoftwareKey::EcP256 { .. } => !(algorithm is Ecdsa && algorithm->Ecdsa_0 is P256),
            SoftwareKey::EcP384 { .. } => !(algorithm is Ecdsa && algorithm->Ecdsa_0 is P384),
            SoftwareKey::EcP521 { .. } => !(algorithm is Ecdsa && algorithm->Ecdsa_0 is P521),
            SoftwareKey::Ed25519 { .. } => !(algorithm is Ed25519),
            SoftwareKey::Hmac(_) => !(algorithm is Hmac),
            SoftwareKey::Dsa { .. } => !(algorithm is Dsa),
            SoftwareKey::PostQuantum { .. } => !(algorithm is MlDsa || algorithm is SlhDsa),
        }) ==> {
            &&& signer matches Err(Error::Key(a))
            &&& a@ == "key type does not match algorithm "@ + algorithm.debug_text()
            &&& verifier matches Err(Error::Key(b))
            &&& b@ == a@
        },
        key is Hmac && key->Hmac_0@.len() == 0 && algorithm is Hmac ==> {
            &&& signer matches Err(Error::Key(a))
            &&& a@ == "HMAC key must not be empty"@
            &&& verifier matches Err(Error::Key(b))
            &&& b@ == a@
        },
        key matches SoftwareKey::PostQuantum { algorithm: scheme, .. } ==> match algorithm {
            SignatureAlgorithm::MlDsa(v) => scheme != PqAlgorithm::MlDsa(v) ==> {
                &&& signer matches Err(Error::Key(a))
                &&& a@ == "key algorithm mismatch: key is "@ + scheme.name_text()
                    + ", but signature requires "@ + v.name_text()
                &&& verifier matches Err(Error::Key(b))
                &&& b@ == "key algorithm mismatch: key is "@ + scheme.name_text()
                    + ", but verification requires "@ + v.name_text()
            },
            SignatureAlgorithm::SlhDsa(v) => scheme != PqAlgorithm::SlhDsa(v) ==> {
                &&& signer matches Err(Error::Key(a))
                &&& a@ == "key algorithm mismatch: key is "@ + scheme.name_text()
                    + ", but signature requires "@ + v.name_text()
                &&& verifier matches Err(Error::Key(b))
                &&& b@ == "key algorithm mismatch: key is "@ + scheme.name_text()
                    + ", but verification requires "@ + v.name_text()
            },
            _ => true,
        },
        (match key {
            SoftwareKey::Rsa { private, .. } => private is None && (algorithm is RsaPkcs1v15
                || algorithm is RsaPss),
            SoftwareKey::Ed25519 { private, .. } => private is None && algorithm is Ed25519,
            SoftwareKey::Dsa { private, .. } => private is None && algorithm is Dsa,
            SoftwareKey::EcP256 { private, .. } => private is None && algorithm is Ecdsa
                && algorithm->Ecdsa_0 is P256,
            SoftwareKey::EcP384 { private, .. } => private is None && algorithm is Ecdsa
                && algorithm->Ecdsa_0 is P384,
            SoftwareKey::EcP521 { private, .. } => private is None && algorithm is Ecdsa
                && algorithm->Ecdsa_0 is P521,
            SoftwareKey::PostQuantum { algorithm: scheme, private_der, .. } => private_der is None
                && match scheme {
                PqAlgorithm::MlDsa(v) => algorithm == SignatureAlgorithm::MlDsa(v),
                PqAlgorithm::SlhDsa(v) => algorithm == SignatureAlgorithm::SlhDsa(v),
            },
            _ => false,
        }) ==> {
            &&& signer matches Err(Error::Key(a))
            &&& a@ == (match key {
                SoftwareKey::Rsa { .. } => "RSA"@,
                SoftwareKey::EcP256 { .. } => "P-256"@,
                SoftwareKey::EcP384 { .. } => "P-384"@,
                SoftwareKey::EcP521 { .. } => "P-521"@,
                SoftwareKey::Ed25519 { .. } => "Ed25519"@,
                SoftwareKey::Hmac(_) => ""@,
                SoftwareKey::Dsa { .. } => "DSA"@,
                SoftwareKey::PostQuantum { algorithm: scheme, .. } => scheme.name_text(),
            }) + " private key required for signing"@
        },
{
}

/// A context that an algorithm cannot have is what a fitting key is refused for.
pub proof fn needless_contexts_are_refused(
    algorithm: SignatureAlgorithm,
    key: SoftwareKey,
    context: &[u8],
    plain_signer: Result<SoftwareSigner>,
    signer: Result<SoftwareSigner>,
    plain_verifier: Result<SoftwareVerifier>,
    verifier: Result<SoftwareVerifier>,
)
    requires
        context@.len() > 0,
        !(algorithm is MlDsa || algorithm is SlhDsa),
        call_ensures(SoftwareSigner::new, (algorithm, key), plain_signer),
        call_ensures(SoftwareSigner::new_with_pq_context, (algorithm, key, context), signer),
        call_ensures(SoftwareVerifier::new, (algorithm, key), plain_verifier),
        call_ensures(SoftwareVerifier::new_with_pq_context, (algorithm, key, context), verifier),
    ensures
        plain_signer is Ok ==> {
            &&& signer matches Err(Error::Key(m))
            &&& m@ == "non-PQ signature algorithm does not accept a context string"@
        },
        plain_signer is Err ==> signer is Err && signer->Err_0@ == plain_signer->Err_0@,
        plain_verifier is Ok ==> {
            &&& verifier matches Err(Error::Key(m))
            &&& m@ == "non-PQ signature algorithm does not accept a context string"@
        },
        plain_verifier is Err ==> verifier is Err && verifier->Err_0@ == plain_verifier->Err_0@,
{
}

/// A signer and a verifier name the algorithm that they were made for.
pub proof fn the_algorithm_is_the_one_asked_for(
    signer: &SoftwareSigner,
    verifier: &SoftwareVerifier,
    a: SignatureAlgorithm,
    b: SignatureAlgorithm,
)
    requires
        call_ensures(<SoftwareSigner as Signer>::algorithm, (signer,), a),
        call_ensures(<SoftwareVerifier as Verifier>::algorithm, (verifier,), b),
    ensures
        a == signer.spec_algorithm(),
        b == verifier.spec_algorithm(),
{
}

/// Signing gives an outcome but for keys that cannot sign: an RSA modulus without
/// room for the encoding or with factors that are not prime, and a DSA group below a
/// byte.
pub proof fn signing_has_an_outcome(
    signer: &SoftwareSigner,
    data: &[u8],
    r: Option<Result<Vec<u8>>>,
)
    requires
        call_ensures(SoftwareSigner::checked_sign, (signer, data), r),
    ensures
        match (signer.spec_algorithm(), signer.spec_key()) {
            (
                SignatureAlgorithm::RsaPkcs1v15(hash),
                SoftwareKey::Rsa { private: Some(sk), .. },
            ) => are_distinct_primes(rsa_factors(sk)) ==> (r is Some <==> rsa_pkcs1v15_signature(
                hash,
                sk,
                data@,
            ) is Some),
            (SignatureAlgorithm::RsaPss(hash), SoftwareKey::Rsa { private: Some(sk), .. }) => (
            r is Some <==> (bit_len(rsa_private_numbers(sk).0) + 6) / 8 >= 2
                * hash.output_len() + 2),
            (SignatureAlgorithm::Dsa(hash), SoftwareKey::Dsa { private: Some(sk), .. }) => (
            r is None <==> (hash is Sha1 || hash is Sha256) && bit_len(dsa_signing_numbers(sk).q)
                < 8),
            _ => r is Some,
        },
{
}

/// A PKCS#1 v1.5 signature is the private key's for the data under the hash that the
/// algorithm names: it is accepted under the public half, and as long as the modulus.
pub proof fn pkcs1v15_signs_the_data(
    signer: &SoftwareSigner,
    data: &[u8],
    r: Result<Vec<u8>>,
    hash: HashAlgorithm,
    sk: rsa::RsaPrivateKey,
)
    requires
        call_ensures(<SoftwareSigner as Signer>::sign, (signer, data), r) || call_ensures(
            SoftwareSigner::checked_sign,
            (signer, data),
            Some(r),
        ),
        signer.spec_algorithm() == SignatureAlgorithm::RsaPkcs1v15(hash),
        signer.spec_key() is Rsa,
        signer.spec_key()->Rsa_private == Some(sk),
    ensures
        r matches Ok(sig) && {
            &&& rsa_pkcs1v15_accepts(hash, rsa_private_numbers(sk), data@, sig@)
            &&& 8 * (sig@.len() - 1) < bit_len(rsa_private_numbers(sk).0) <= 8 * sig@.len()
            &&& are_distinct_primes(rsa_factors(sk)) ==> rsa_pkcs1v15_signature(hash, sk, data@)
                == Some(sig@)
        },
{
}

/// A PSS signature is accepted for the data under the hash that the algorithm names
/// and the public half of the key, and as long as the modulus. A key whose factors
/// are different primes always signs.
pub proof fn pss_signs_the_data(
    signer: &SoftwareSigner,
    data: &[u8],
    r: Result<Vec<u8>>,
    hash: HashAlgorithm,
    sk: rsa::RsaPrivateKey,
)
    requires
        call_ensures(<SoftwareSigner as Signer>::sign, (signer, data), r) || call_ensures(
            SoftwareSigner::checked_sign,
            (signer, data),
            Some(r),
        ),
        signer.spec_algorithm() == SignatureAlgorithm::RsaPss(hash),
        signer.spec_key() is Rsa,
        signer.spec_key()->Rsa_private == Some(sk),
    ensures
        are_distinct_primes(rsa_factors(sk)) ==> r is Ok,
        r matches Ok(sig) ==> {
            &&& rsa_pss_accepts(hash, rsa_private_numbers(sk), data@, sig@)
            &&& 8 * (sig@.len() - 1) < bit_len(rsa_private_numbers(sk).0) <= 8 * sig@.len()
        },
        r is Err ==> {
            &&& r matches Err(Error::Crypto(m))
            &&& "RSA-PSS sign: "@.len() <= m@.len()
            &&& m@.take("RSA-PSS sign: "@.len() as int) == "RSA-PSS sign: "@
        },
{
    if r is Err {
        let label = "RSA-PSS sign: "@;
        let text = choose|text: Seq<char>|
            r->Err_0@ == ErrorView::Crypto(#[trigger] (label + text));
        assert((label + text).take(label.len() as int) =~= label);
    }
}

/// RSA verification answers whether the public key's own check, under the hash that
/// the algorithm names, accepts the signature for the data. Any bytes are answered.
pub proof fn rsa_verifies_the_data(
    verifier: &SoftwareVerifier,
    data: &[u8],
    sig: &[u8],
    r: Result<bool>,
    hash: HashAlgorithm,
    public: rsa::RsaPublicKey,
)
    requires
        call_ensures(<SoftwareVerifier as Verifier>::verify, (verifier, data, sig), r),
        verifier.spec_key() is Rsa,
        verifier.spec_key()->Rsa_public == public,
    ensures
        verifier.spec_algorithm() == SignatureAlgorithm::RsaPkcs1v15(hash) ==> r == Ok::<
            bool,
            Error,
        >(rsa_pkcs1v15_accepts(hash, rsa_public_numbers(public), data@, sig@)),
        verifier.spec_algorithm() == SignatureAlgorithm::RsaPss(hash) ==> r == Ok::<bool, Error>(
            rsa_pss_accepts(hash, rsa_public_numbers(public), data@, sig@),
        ),
{
}

/// A pair made of an RSA private key verifies what it signs, in either scheme and
/// under every hash.
pub proof fn rsa_pairs_verify_what_they_sign(
    private_key: rsa::RsaPrivateKey,
    key: SoftwareKey,
    algorithm: SignatureAlgorithm,
    signer: Result<SoftwareSigner>,
    verifier: Result<SoftwareVerifier>,
    data: &[u8],
    sig: Vec<u8>,
    bytes: &[u8],
    r: Result<bool>,
)
    requires
        algorithm is RsaPkcs1v15 || algorithm is RsaPss,
        call_ensures(rsa_key_pair, (private_key,), key),
        call_ensures(SoftwareSigner::new, (algorithm, key), signer),
        call_ensures(SoftwareVerifier::new, (algorithm, key), verifier),
        call_ensures(<SoftwareSigner as Signer>::sign, (&signer->Ok_0, data), Ok(sig)),
        bytes@ == sig@,
        call_ensures(<SoftwareVerifier as Verifier>::verify, (&verifier->Ok_0, data, bytes), r),
    ensures
        signer is Ok,
        verifier is Ok,
        key is Rsa,
        key->Rsa_private == Some(private_key),
        rsa_public_numbers(key->Rsa_public) == rsa_private_numbers(private_key),
        r == Ok::<bool, Error>(true),
{
}

/// The public half of an RSA key is read as it is, and of no other key.
pub proof fn rsa_public_halves_are_read(key: &SoftwareKey, r: Result<&rsa::RsaPublicKey>)
    requires
        call_ensures(extract_rsa_public, (key,), r),
    ensures
        *key is Rsa ==> (r matches Ok(public) && *public == key->Rsa_public),
        !(*key is Rsa) ==> (r matches Err(Error::Key(m)) && m@ == "RSA key required"@),
{
}

/// Two strings of one length that denote the same number are the same.
proof fn lemma_same_number_same_bytes(a: Seq<u8>, b: Seq<u8>)
    requires
        a.len() == b.len(),
        be_value(a) == be_value(b),
    ensures
        a == b,
{
    lemma_be_bytes_of_value(a);
    lemma_be_bytes_of_value(b);
}

/// The one string that denotes a hash's number at a curve's length, or at its own
/// where that is longer, is the padded hash.
proof fn lemma_prehash(curve: EcCurve, hashed: Seq<u8>, prehash: Seq<u8>)
    requires
        prehash.len() == if hashed.len() > curve.field_len() {
            hashed.len()
        } else {
            curve.field_len()
        },
        be_value(prehash) == be_value(hashed),
    ensures
        prehash == crate::bytes::zero_padded(hashed, curve.field_len()),
{
    if hashed.len() < curve.field_len() {
        lemma_zeros_in_front((curve.field_len() - hashed.len()) as nat, hashed);
    }
    lemma_same_number_same_bytes(prehash, crate::bytes::zero_padded(hashed, curve.field_len()));
}

/// ECDSA signs the number that the data's hash, under the hash that the algorithm
/// names, denotes: `prehash` is that number in a field's length, or in the hash's own
/// where that is longer. The signature is accepted for it under the private key's
/// public key; on P-256 and P-384 it follows from key and number.
pub proof fn ecdsa_signs_the_hash_of_the_data(
    signer: &SoftwareSigner,
    data: &[u8],
    r: Result<Vec<u8>>,
    curve: EcCurve,
    hash: HashAlgorithm,
    scalar: Seq<u8>,
    n: nat,
    prehash: Seq<u8>,
)
    requires
        call_ensures(<SoftwareSigner as Signer>::sign, (signer, data), r) || call_ensures(
            SoftwareSigner::checked_sign,
            (signer, data),
            Some(r),
        ),
        signer.spec_algorithm() == SignatureAlgorithm::Ecdsa(curve, hash),
        match signer.spec_key() {
            SoftwareKey::EcP256 { private: Some(sk), .. } => curve is P256 && sk@ == scalar && n
                == 32,
            SoftwareKey::EcP384 { private: Some(sk), .. } => curve is P384 && sk@ == scalar && n
                == 48,
            SoftwareKey::EcP521 { private: Some(sk), .. } => curve is P521 && sk@ == scalar && n
                == 66,
            _ => false,
        },
        prehash.len() == if hash_of(hash, data@).len() > n {
            hash_of(hash, data@).len()
        } else {
            n
        },
        be_value(prehash) == be_value(hash_of(hash, data@)),
    ensures
        r matches Ok(sig) ==> {
            &&& ecdsa_accepts(curve, ec_public_point(curve, scalar), prehash, sig@)
            &&& sig@.len() == 2 * n
            &&& 0 < be_value(sig@.take(n as int)) < curve.order()
            &&& 0 < be_value(sig@.skip(n as int)) < curve.order()
            &&& !(curve is P521) ==> ecdsa_signature(curve, scalar, prehash) == Some(sig@)
        },
        r is Err ==> {
            &&& r matches Err(Error::Crypto(m))
            &&& m@ == (match curve {
                EcCurve::P256 => "ECDSA P-256 sign: "@,
                EcCurve::P384 => "ECDSA P-384 sign: "@,
                EcCurve::P521 => "ECDSA P-521 sign: "@,
            }) + "signature error"@
            &&& !(curve is P521) ==> ecdsa_signature(curve, scalar, prehash) is None
        },
{
    lemma_prehash(curve, hash_of(hash, data@), prehash);
    if r is Ok {
        let sig = r->Ok_0@;
        assert(sig.take(n as int) =~= sig.subrange(0, n as int));
        assert(sig.skip(n as int) =~= sig.subrange(n as int, 2 * n as int));
    }
}

/// ECDSA verifies the number that the data's hash, under the hash that the algorithm
/// names, denotes, with the private key's public key where there is one and else with
/// the stored one. Two numbers of a field's length, both from 1 up to the order, are
/// answered; anything else is no signature.
pub proof fn ecdsa_verifies_the_hash_of_the_data(
    verifier: &SoftwareVerifier,
    data: &[u8],
    sig: &[u8],
    r: Result<bool>,
    curve: EcCurve,
    hash: HashAlgorithm,
    point: Seq<u8>,
    n: nat,
    prehash: Seq<u8>,
)
    requires
        call_ensures(<SoftwareVerifier as Verifier>::verify, (verifier, data, sig), r),
        verifier.spec_algorithm() == SignatureAlgorithm::Ecdsa(curve, hash),
        match verifier.spec_key() {
            SoftwareKey::EcP256 { private, public } => curve is P256 && n == 32 && point == (
            match private {
                Some(sk) => ec_public_point(curve, sk@),
                None => public@,
            }),
            SoftwareKey::EcP384 { private, public } => curve is P384 && n == 48 && point == (
            match private {
                Some(sk) => ec_public_point(curve, sk@),
                None => public@,
            }),
            SoftwareKey::EcP521 { private, public } => curve is P521 && n == 66 && point == (
            match private {
                Some(sk) => ec_public_point(curve, sk@),
                None => public@,
            }),
            _ => false,
        },
        prehash.len() == if hash_of(hash, data@).len() > n {
            hash_of(hash, data@).len()
        } else {
            n
        },
        be_value(prehash) == be_value(hash_of(hash, data@)),
    ensures
        if sig@.len() == 2 * n && 0 < be_value(sig@.take(n as int)) < curve.order() && 0
            < be_value(sig@.skip(n as int)) < curve.order() {
            r == Ok::<bool, Error>(ecdsa_accepts(curve, point, prehash, sig@))
        } else {
            r matches Err(Error::Crypto(m)) && m@ == (match curve {
                EcCurve::P256 => "invalid P-256 signature: "@,
                EcCurve::P384 => "invalid P-384 signature: "@,
                EcCurve::P521 => "invalid P-521 signature: "@,
            }) + "signature error"@
        },
{
    lemma_prehash(curve, hash_of(hash, data@), prehash);
    if sig@.len() == 2 * n {
        assert(sig@.take(n as int) =~= sig@.subrange(0, n as int));
        assert(sig@.skip(n as int) =~= sig@.subrange(n as int, 2 * n as int));
    }
}

/// An ECDSA signature is read as it is where it is two numbers of a field's length,
/// both from 1 up to the order.
pub proof fn ecdsa_signatures_are_read_as_two_numbers(
    curve: EcCurve,
    rs: &[u8],
    r: Result<Vec<u8>>,
    n: nat,
)
    requires
        call_ensures(raw_to_ecdsa_sig, (curve, rs), r),
        n == (match curve {
            EcCurve::P256 => 32nat,
            EcCurve::P384 => 48,
            EcCurve::P521 => 66,
        }),
    ensures
        r is Ok <==> rs@.len() == 2 * n && 0 < be_value(rs@.take(n as int)) < curve.order() && 0
            < be_value(rs@.skip(n as int)) < curve.order(),
        r matches Ok(sig) ==> sig@ == rs@,
        r is Err ==> (r matches Err(Error::Crypto(m)) && m@ == (match curve {
                EcCurve::P256 => "invalid P-256 signature: "@,
                EcCurve::P384 => "invalid P-384 signature: "@,
                EcCurve::P521 => "invalid P-521 signature: "@,
            }) + "signature error"@),
{
    if rs@.len() == 2 * n {
        assert(rs@.take(n as int) =~= rs@.subrange(0, n as int));
        assert(rs@.skip(n as int) =~= rs@.subrange(n as int, 2 * n as int));
    }
}

/// Ed25519 signs the data itself with the secret key. The key's own strict check
/// accepts the signature, unless its first half is the neutral element.
pub proof fn ed25519_signs_the_data(
    signer: &SoftwareSigner,
    data: &[u8],
    r: Result<Vec<u8>>,
    sk: ed25519_dalek::SigningKey,
)
    requires
        call_ensures(<SoftwareSigner as Signer>::sign, (signer, data), r) || call_ensures(
            SoftwareSigner::checked_sign,
            (signer, data),
            Some(r),
        ),
        signer.spec_algorithm() is Ed25519,
        signer.spec_key() is Ed25519,
        signer.spec_key()->Ed25519_private == Some(sk),
    ensures
        r matches Ok(sig) && {
            &&& sig@ == ed25519_signature(ed25519_secret(sk), data@)
            &&& sig@.len() == 64
            &&& sig@[0] != 1 || (exists|i: int| 1 <= i < 32 && sig@[i] != 0) ==> ed25519_accepts(
                ed25519_public(ed25519_secret(sk)),
                data@,
                sig@,
            )
        },
{
    let sig = r->Ok_0@;
    if sig.subrange(0, 32) == crate::software::ed25519::ed25519_identity() {
        assert forall|i: int| 0 <= i < 32 implies sig[i] == (if i == 0 {
            1u8
        } else {
            0u8
        }) by {
            assert(sig.subrange(0, 32)[i] == crate::software::ed25519::ed25519_identity()[i]);
        }
    }
}

/// Ed25519 verification answers whether the strict check accepts the signature for the
/// data itself, with the private key's public key where there is one and else with the
/// stored one. Whatever is accepted has a reduced scalar and a canonical point that is
/// none of the eight of low order. Only 64 bytes are a signature.
pub proof fn ed25519_verifies_the_data(
    verifier: &SoftwareVerifier,
    data: &[u8],
    sig: &[u8],
    r: Result<bool>,
    public: Seq<u8>,
    y: int,
)
    requires
        call_ensures(<SoftwareVerifier as Verifier>::verify, (verifier, data, sig), r),
        verifier.spec_algorithm() is Ed25519,
        match verifier.spec_key() {
            SoftwareKey::Ed25519 { private: Some(sk), .. } => public == ed25519_public(
                ed25519_secret(sk),
            ),
            SoftwareKey::Ed25519 { public: stored, .. } => public == ed25519_public_bytes(stored),
            _ => false,
        },
        y == le_value(sig@.take(32))
            % 0x8000000000000000000000000000000000000000000000000000000000000000nat,
    ensures
        if sig@.len() == 64 {
            r == Ok::<bool, Error>(ed25519_accepts(public, data@, sig@))
        } else {
            r matches Err(Error::Crypto(m)) && m@ == "invalid Ed25519 signature: "@
                + "signature error"@
        },
        r matches Ok(true) ==> {
            &&& le_value(sig@.skip(32))
                < 0x1000000000000000000000000000000014def9dea2f79cd65812631a5cf5d3ednat
            &&& 1 < y < 0x7fffffffffffffffffffffffffffffffffffffffffffffffffffffffffffffednat - 1
            &&& y != 0x05fc536d880238b13933c6d305acdfd5f098eff289f4c345b027b2c28f95e826nat
            &&& y != 0x7fffffffffffffffffffffffffffffffffffffffffffffffffffffffffffffednat
                - 0x05fc536d880238b13933c6d305acdfd5f098eff289f4c345b027b2c28f95e826nat
        },
{
    if sig@.len() == 64 {
        assert(sig@.take(32) =~= sig@.subrange(0, 32));
        assert(sig@.skip(32) =~= sig@.subrange(32, 64));
    }
}

/// A little-endian number is the big-endian number of the string turned round.
pub proof fn little_endian_is_big_endian_turned_round(first: u8, rest: Seq<u8>)
    ensures
        le_value(seq![first] + rest) == first + 256 * le_value(rest),
{
    let turned = (seq![first] + rest).reverse();
    assert(turned.drop_last() =~= rest.reverse());
}

/// An authentication code is the nested hash of key and data under the hash that the
/// algorithm names, with the two masks and the block length of that hash.
pub proof fn codes_are_made_of_key_and_data(
    signer: &SoftwareSigner,
    data: &[u8],
    r: Result<Vec<u8>>,
    hash: HashAlgorithm,
    secret: Seq<u8>,
    outer: Seq<u8>,
    inner: Seq<u8>,
    used: Seq<u8>,
)
    requires
        call_ensures(<SoftwareSigner as Signer>::sign, (signer, data), r) || call_ensures(
            SoftwareSigner::checked_sign,
            (signer, data),
            Some(r),
        ),
        signer.spec_algorithm() == SignatureAlgorithm::Hmac(hash),
        signer.spec_key() is Hmac,
        signer.spec_key()->Hmac_0@ == secret,
        outer.len() == inner.len(),
        outer.len() == (match hash {
            HashAlgorithm::Sha384 | HashAlgorithm::Sha512 => 128int,
            HashAlgorithm::Sha3_224 => 200 - 2 * 28,
            HashAlgorithm::Sha3_256 => 200 - 2 * 32,
            HashAlgorithm::Sha3_384 => 200 - 2 * 48,
            HashAlgorithm::Sha3_512 => 200 - 2 * 64,
            _ => 64,
        }),
        used == if secret.len() > outer.len() {
            hash_of(hash, secret)
        } else {
            secret
        },
        forall|i: int|
            0 <= i < outer.len() ==> #[trigger] outer[i] == (if i < used.len() {
                used[i]
            } else {
                0u8
            }) ^ 0x5c,
        forall|i: int|
            0 <= i < inner.len() ==> #[trigger] inner[i] == (if i < used.len() {
                used[i]
            } else {
                0u8
            }) ^ 0x36,
    ensures
        r matches Ok(mac) && mac@ == hash_of(hash, outer + hash_of(hash, inner + data@)),
{
    let block = crate::digest::hmac_block_key(hash, secret);
    assert(outer =~= crate::digest::xored(block, 0x5c));
    assert(inner =~= crate::digest::xored(block, 0x36));
}

/// A code verifies exactly where it is the one that a signer with the same secret and
/// algorithm makes of the data; every other string is answered with no.
pub proof fn codes_verify_where_they_are_made_again(
    signer: &SoftwareSigner,
    verifier: &SoftwareVerifier,
    data: &[u8],
    mac: Vec<u8>,
    sig: &[u8],
    r: Result<bool>,
)
    requires
        call_ensures(<SoftwareSigner as Signer>::sign, (signer, data), Ok(mac)),
        call_ensures(<SoftwareVerifier as Verifier>::verify, (verifier, data, sig), r),
        signer.spec_algorithm() is Hmac,
        verifier.spec_algorithm() == signer.spec_algorithm(),
        signer.spec_key() is Hmac,
        verifier.spec_key() is Hmac,
        verifier.spec_key()->Hmac_0@ == signer.spec_key()->Hmac_0@,
    ensures
        r == Ok::<bool, Error>(sig@ == mac@),
{
}

/// DSA signs the data under SHA-1 or SHA-256 as the algorithm names it. The signature
/// is the outside signature's two numbers, each written as long as `q`; no other hash
/// is offered.
pub proof fn dsa_signs_the_data(
    signer: &SoftwareSigner,
    data: &[u8],
    r: Result<Vec<u8>>,
    hash: HashAlgorithm,
    sk: dsa::SigningKey,
    n: nat,
)
    requires
        call_ensures(<SoftwareSigner as Signer>::sign, (signer, data), r) || call_ensures(
            SoftwareSigner::checked_sign,
            (signer, data),
            Some(r),
        ),
        signer.spec_algorithm() == SignatureAlgorithm::Dsa(hash),
        signer.spec_key() is Dsa,
        signer.spec_key()->Dsa_private == Some(sk),
        8 * (n - 1) < bit_len(dsa_signing_numbers(sk).q) <= 8 * n,
    ensures
        hash is Sha1 || hash is Sha256 ==> match dsa_signature(
            hash,
            dsa_signing_numbers(sk),
            dsa_secret_number(sk),
            data@,
        ) {
            Some((a, b)) => {
                &&& r matches Ok(sig)
                &&& sig@.len() == 2 * n
                &&& be_value(sig@.take(n as int)) == a
                &&& be_value(sig@.skip(n as int)) == b
            },
            None => r matches Err(Error::Crypto(m)) && m@ == "DSA sign: "@ + "signature error"@,
        },
        !(hash is Sha1 || hash is Sha256) ==> {
            &&& r matches Err(Error::UnsupportedAlgorithm(m))
            &&& m@ == "DSA with "@ + hash.debug_text()
        },
{
    let numbers = dsa_signing_numbers(sk);
    let signed = dsa_signature(hash, numbers, dsa_secret_number(sk), data@);
    if (hash is Sha1 || hash is Sha256) && signed is Some {
        let (a, b) = signed->0;
        lemma_bits_fit_bytes(numbers.q, n);
        lemma_value_of_be_bytes(a, n);
        lemma_value_of_be_bytes(b, n);
        let sig = r->Ok_0@;
        assert(sig.take(n as int) =~= crate::bytes::be_bytes(a, n));
        assert(sig.skip(n as int) =~= crate::bytes::be_bytes(b, n));
    }
}

/// DSA verification answers whether the outside check, under the hash that the
/// algorithm names, accepts the two numbers of the signature for the data, with the
/// private key's public key where there is one and else with the stored one. Two
/// numbers as long as `q`, neither of them zero, are a signature.
pub proof fn dsa_verifies_the_data(
    verifier: &SoftwareVerifier,
    data: &[u8],
    sig: &[u8],
    r: Result<bool>,
    hash: HashAlgorithm,
    numbers: DsaNumbers,
    n: nat,
)
    requires
        call_ensures(<SoftwareVerifier as Verifier>::verify, (verifier, data, sig), r),
        verifier.spec_algorithm() == SignatureAlgorithm::Dsa(hash),
        match verifier.spec_key() {
            SoftwareKey::Dsa { private: Some(sk), .. } => numbers == dsa_signing_numbers(sk),
            SoftwareKey::Dsa { public, .. } => numbers == dsa_verifying_numbers(public),
            _ => false,
        },
        8 * (n - 1) < bit_len(numbers.q) <= 8 * n,
    ensures
        sig@.len() == 2 * n && be_value(sig@.take(n as int)) != 0 && be_value(sig@.skip(n as int))
            != 0 ==> if hash is Sha1 || hash is Sha256 {
            r == Ok::<bool, Error>(
                dsa_accepts(
                    hash,
                    numbers,
                    data@,
                    be_value(sig@.take(n as int)),
                    be_value(sig@.skip(n as int)),
                ),
            )
        } else {
            r matches Err(Error::UnsupportedAlgorithm(m)) && m@ == "DSA with "@ + hash.debug_text()
        },
        sig@.len() != 2 * n ==> {
            &&& r matches Err(Error::Crypto(m))
            &&& m@ == "DSA signature must be "@ + decimal_text(2 * n) + " bytes (2 * q_len="@
                + decimal_text(n) + "), got "@ + decimal_text(sig@.len())
        },
        sig@.len() == 2 * n && (be_value(sig@.take(n as int)) == 0 || be_value(sig@.skip(n as int))
            == 0) ==> {
            &&& r matches Err(Error::Crypto(m))
            &&& m@ == "invalid DSA signature: "@ + "signature error"@
        },
{
    if sig@.len() == 2 * n {
        assert(sig@.take(n as int) =~= sig@.subrange(0, n as int));
        assert(sig@.skip(n as int) =~= sig@.subrange(n as int, 2 * n as int));
    }
}

/// Writing and reading a DSA signature are inverse: the numbers that were written are
/// read again.
pub proof fn dsa_numbers_are_read_as_written(
    q_len: usize,
    first: &[u8],
    second: &[u8],
    raw: Vec<u8>,
    bytes: &[u8],
    read: Result<(Vec<u8>, Vec<u8>)>,
)
    requires
        first@.len() <= q_len,
        second@.len() <= q_len,
        be_value(first@) != 0,
        be_value(second@) != 0,
        call_ensures(dsa_sig_to_raw, (q_len, first, second), raw),
        bytes@ == raw@,
        call_ensures(raw_to_dsa_sig, (q_len, bytes), read),
    ensures
        raw@.len() == 2 * q_len,
        read matches Ok(pair) && {
            &&& be_value(pair.0@) == be_value(first@)
            &&& be_value(pair.1@) == be_value(second@)
            &&& pair.0@.len() == q_len
            &&& pair.1@.len() == q_len
            &&& pair.0@ + pair.1@ == raw@
        },
{
    let n = q_len as nat;
    lemma_written(first@, n);
    lemma_written(second@, n);
    let a = crate::bytes::be_bytes(be_value(first@), n);
    let b = crate::bytes::be_bytes(be_value(second@), n);
    assert(raw@.subrange(0, n as int) =~= a);
    assert(raw@.subrange(n as int, 2 * n as int) =~= b);
    lemma_same_number_same_bytes(read->Ok_0.0@, a);
    lemma_same_number_same_bytes(read->Ok_0.1@, b);
}

proof fn lemma_written(bytes: Seq<u8>, n: nat)
    requires
        bytes.len() <= n,
    ensures
        crate::bytes::be_bytes(be_value(bytes), n).len() == n,
        be_value(crate::bytes::be_bytes(be_value(bytes), n)) == be_value(bytes),
{
    let padded = crate::bytes::zero_padded(bytes, n);
    if bytes.len() < n {
        lemma_zeros_in_front((n - bytes.len()) as nat, bytes);
    }
    lemma_be_bytes_of_value(padded);
    lemma_value_of_be_bytes(be_value(bytes), n);
}

/// A DSA signature is read exactly where it is two numbers of the length, neither of
/// them zero.
pub proof fn dsa_signatures_are_read_as_two_numbers(
    q_len: usize,
    rs: &[u8],
    r: Result<(Vec<u8>, Vec<u8>)>,
)
    requires
        call_ensures(raw_to_dsa_sig, (q_len, rs), r),
    ensures
        r is Ok <==> rs@.len() == 2 * q_len && be_value(rs@.take(q_len as int)) != 0 && be_value(
            rs@.skip(q_len as int),
        ) != 0,
        r matches Ok(pair) ==> {
            &&& pair.0@ == rs@.take(q_len as int)
            &&& pair.1@ == rs@.skip(q_len as int)
        },
        r is Err ==> r->Err_0 is Crypto,
{
    let n = q_len as int;
    if rs@.len() == 2 * n {
        assert(rs@.take(n) =~= rs@.subrange(0, n));
        assert(rs@.skip(n) =~= rs@.subrange(n, 2 * n));
        if r is Ok {
            lemma_same_number_same_bytes(r->Ok_0.0@, rs@.take(n));
            lemma_same_number_same_bytes(r->Ok_0.1@, rs@.skip(n));
        }
    }
}

/// Each family signs with private keys of its own only, and says which it misses.
pub proof fn families_sign_with_their_own_keys(
    key: &SoftwareKey,
    hash: HashAlgorithm,
    curve: EcCurve,
    ml: MlDsaVariant,
    slh: SlhDsaVariant,
    data: &[u8],
    context: &[u8],
    r: Result<Vec<u8>>,
)
    ensures
        call_ensures(rsa_pkcs1v15_sign, (key, hash, data), r) && !(*key is Rsa
            && key->Rsa_private is Some) ==> (r matches Err(Error::Key(m)) && m@
            == "RSA private key required"@),
        call_ensures(rsa_pss_sign, (key, hash, data), r) && !(*key is Rsa && key->Rsa_private
            is Some) ==> (r matches Err(Error::Key(m)) && m@
            == "RSA private key required for PSS"@),
        call_ensures(ecdsa_sign, (key, curve, hash, data), r) && !(match *key {
            SoftwareKey::EcP256 { private, .. } => curve is P256 && private is Some,
            SoftwareKey::EcP384 { private, .. } => curve is P384 && private is Some,
            SoftwareKey::EcP521 { private, .. } => curve is P521 && private is Some,
            _ => false,
        }) ==> (r matches Err(Error::Key(m)) && m@ == "ECDSA "@ + curve.debug_text()
            + " private key required for signing"@),
        call_ensures(ed25519_sign, (key, data), r) && !(*key is Ed25519 && key->Ed25519_private
            is Some) ==> (r matches Err(Error::Key(m)) && m@ == "Ed25519 private key required"@),
        call_ensures(hmac_sign, (key, hash, data), r) && !(*key is Hmac) ==> (r matches Err(
            Error::Key(m),
        ) && m@ == "HMAC key required"@),
        call_ensures(dsa_sign, (key, hash, data), r) && !(*key is Dsa && key->Dsa_private is Some)
            ==> (r matches Err(Error::Key(m)) && m@ == "DSA private key required"@),
        call_ensures(pq_ml_dsa_sign_dispatch, (key, ml, data, context), r) && !(*key is PostQuantum
            && key->PostQuantum_private_der is Some) ==> (r matches Err(Error::Key(m)) && m@
            == ml.name_text() + " private key required for signing"@),
        call_ensures(pq_slh_dsa_sign_dispatch, (key, slh, data, context), r)
            && !(*key is PostQuantum && key->PostQuantum_private_der is Some) ==> (
        r matches Err(Error::Key(m)) && m@ == slh.name_text()
            + " private key required for signing"@),
{
}

/// Each family verifies with keys of its own only, and says which it misses.
pub proof fn families_verify_with_their_own_keys(
    key: &SoftwareKey,
    hash: HashAlgorithm,
    curve: EcCurve,
    ml: MlDsaVariant,
    slh: SlhDsaVariant,
    data: &[u8],
    sig: &[u8],
    context: &[u8],
    r: Result<bool>,
)
    ensures
        call_ensures(rsa_pkcs1v15_verify, (key, hash, data, sig), r) && !(*key is Rsa) ==> (
        r matches Err(Error::Key(m)) && m@ == "RSA key required"@),
        call_ensures(rsa_pss_verify, (key, hash, data, sig), r) && !(*key is Rsa) ==> (
        r matches Err(Error::Key(m)) && m@ == "RSA key required"@),
        call_ensures(ecdsa_verify, (key, curve, hash, data, sig), r) && !(match *key {
            SoftwareKey::EcP256 { .. } => curve is P256,
            SoftwareKey::EcP384 { .. } => curve is P384,
            SoftwareKey::EcP521 { .. } => curve is P521,
            _ => false,
        }) ==> (r matches Err(Error::Key(m)) && m@ == "ECDSA "@ + curve.debug_text()
            + " key required for verification"@),
        call_ensures(ed25519_verify, (key, data, sig), r) && !(*key is Ed25519) ==> (r matches Err(
            Error::Key(m),
        ) && m@ == "Ed25519 key required"@),
        call_ensures(hmac_verify, (key, hash, data, sig), r) && !(*key is Hmac) ==> (r matches Err(
            Error::Key(m),
        ) && m@ == "HMAC key required"@),
        call_ensures(dsa_verify, (key, hash, data, sig), r) && !(*key is Dsa) ==> (r matches Err(
            Error::Key(m),
        ) && m@ == "DSA key required"@),
        call_ensures(pq_ml_dsa_verify_dispatch, (key, ml, data, sig, context), r)
            && !(*key is PostQuantum) ==> (r matches Err(Error::Key(m)) && m@ == ml.name_text()
            + " key required for verification"@),
        call_ensures(pq_slh_dsa_verify_dispatch, (key, slh, data, sig, context), r)
            && !(*key is PostQuantum) ==> (r matches Err(Error::Key(m)) && m@ == slh.name_text()
            + " key required for verification"@),
{
}

} // verus!
