//! The software-backed signer and verifier.
use crate::algorithm::{EcCurve, PqAlgorithm, SignatureAlgorithm};
use crate::bytes::to_vec;
use crate::error::{outcome, view_outcome, Error, ErrorView, Result};
use crate::key::SoftwareKey;
use crate::software::dsa::{
    dsa_can_sign, dsa_checked_sign, dsa_sign, dsa_sign_outcome, dsa_verify, dsa_verify_outcome,
};
use crate::software::ecdsa::{ecdsa_sign, ecdsa_sign_outcome, ecdsa_verify, ecdsa_verify_outcome};
use crate::software::ed25519::{
    ed25519_sign, ed25519_sign_outcome, ed25519_strict, ed25519_verify, ed25519_verify_outcome,
};
use crate::software::hmac::{hmac_sign, hmac_sign_outcome, hmac_verify, hmac_verify_outcome};
use crate::software::ml_dsa::{
    ml_dsa_sign_outcome, ml_dsa_verify_outcome, pq_ml_dsa_sign_dispatch, pq_ml_dsa_verify_dispatch,
};
use crate::software::rsa::{
    are_distinct_primes, pkcs1v15_can_sign, pkcs1v15_sign_outcome, pkcs1v15_verify_outcome,
    pss_can_sign, pss_sign_outcome, pss_verify_outcome, rsa_factors, rsa_pkcs1v15_checked_sign,
    rsa_pkcs1v15_sign, rsa_pkcs1v15_signature, rsa_pkcs1v15_verify, rsa_pss_checked_sign,
    rsa_pss_sign, rsa_pss_verify,
};
use crate::software::slh_dsa::{
    pq_slh_dsa_sign_dispatch, pq_slh_dsa_verify_dispatch, slh_dsa_sign_outcome,
    slh_dsa_verify_outcome,
};
use crate::text::{join2, join3};
use crate::traits::{Signer, Verifier};
use vstd::prelude::*;
use vstd::string::StringExecFns;

verus! {

impl SignatureAlgorithm {
    /// Whether this is a post-quantum algorithm, which signs in a context.
    pub open spec fn is_pq(self) -> bool {
        self is MlDsa || self is SlhDsa
    }

    /// The post-quantum scheme of the algorithm.
    pub open spec fn pq(self) -> Option<PqAlgorithm> {
        match self {
            SignatureAlgorithm::MlDsa(v) => Some(PqAlgorithm::MlDsa(v)),
            SignatureAlgorithm::SlhDsa(v) => Some(PqAlgorithm::SlhDsa(v)),
            _ => None,
        }
    }

    /// How a missing private key for the algorithm is called.
    pub open spec fn key_title(self) -> Seq<char> {
        match self {
            SignatureAlgorithm::RsaPkcs1v15(_) => "RSA"@,
            SignatureAlgorithm::RsaPss(_) => "RSA"@,
            SignatureAlgorithm::Ecdsa(EcCurve::P256, _) => "P-256"@,
            SignatureAlgorithm::Ecdsa(EcCurve::P384, _) => "P-384"@,
            SignatureAlgorithm::Ecdsa(EcCurve::P521, _) => "P-521"@,
            SignatureAlgorithm::Ed25519 => "Ed25519"@,
            SignatureAlgorithm::Hmac(_) => "HMAC"@,
            SignatureAlgorithm::Dsa(_) => "DSA"@,
            SignatureAlgorithm::MlDsa(v) => v.name_text(),
            SignatureAlgorithm::SlhDsa(v) => v.name_text(),
        }
    }
}

/// Whether a key is of the type that an algorithm works on.
pub open spec fn key_fits(algorithm: SignatureAlgorithm, key: SoftwareKey) -> bool {
    match algorithm {
        SignatureAlgorithm::RsaPkcs1v15(_) | SignatureAlgorithm::RsaPss(_) => key is Rsa,
        SignatureAlgorithm::Ecdsa(EcCurve::P256, _) => key is EcP256,
        SignatureAlgorithm::Ecdsa(EcCurve::P384, _) => key is EcP384,
        SignatureAlgorithm::Ecdsa(EcCurve::P521, _) => key is EcP521,
        SignatureAlgorithm::Ed25519 => key is Ed25519,
        SignatureAlgorithm::Hmac(_) => key is Hmac,
        SignatureAlgorithm::Dsa(_) => key is Dsa,
        SignatureAlgorithm::MlDsa(_) | SignatureAlgorithm::SlhDsa(_) => key is PostQuantum,
    }
}

/// Whether a key can sign at all: it has a private half, or is a shared secret.
pub open spec fn has_private(key: SoftwareKey) -> bool {
    match key {
        SoftwareKey::Rsa { private, .. } => private is Some,
        SoftwareKey::EcP256 { private, .. } => private is Some,
        SoftwareKey::EcP384 { private, .. } => private is Some,
        SoftwareKey::EcP521 { private, .. } => private is Some,
        SoftwareKey::Ed25519 { private, .. } => private is Some,
        SoftwareKey::Hmac(_) => true,
        SoftwareKey::Dsa { private, .. } => private is Some,
        SoftwareKey::PostQuantum { private_der, .. } => private_der is Some,
    }
}

/// What speaks against using `key` with `algorithm`, whatever for: it is of
/// another type, it is an empty secret, or it is for another post-quantum scheme
/// (`requirer` says what requires the right one).
pub open spec fn key_fault(
    algorithm: SignatureAlgorithm,
    key: SoftwareKey,
    requirer: Seq<char>,
) -> Option<ErrorView> {
    if !key_fits(algorithm, key) {
        Some(ErrorView::Key("key type does not match algorithm "@ + algorithm.debug_text()))
    } else {
        match key {
            SoftwareKey::Hmac(secret) => if secret@.len() == 0 {
                Some(ErrorView::Key("HMAC key must not be empty"@))
            } else {
                None
            },
            SoftwareKey::PostQuantum { algorithm: actual, .. } => if Some(actual)
                != algorithm.pq() {
                Some(
                    ErrorView::Key(
                        "key algorithm mismatch: key is "@ + actual.name_text() + requirer
                            + algorithm.pq()->0.name_text(),
                    ),
                )
            } else {
                None
            },
            _ => None,
        }
    }
}

/// What speaks against signing with `key`: a fault of the key, or that it has no
/// private half.
pub open spec fn signing_key_fault(algorithm: SignatureAlgorithm, key: SoftwareKey) -> Option<
    ErrorView,
> {
    match key_fault(algorithm, key, ", but signature requires "@) {
        Some(e) => Some(e),
        None => if !has_private(key) {
            Some(ErrorView::Key(algorithm.key_title() + " private key required for signing"@))
        } else {
            None
        },
    }
}

/// What speaks against verifying with `key`.
pub open spec fn verifying_key_fault(algorithm: SignatureAlgorithm, key: SoftwareKey) -> Option<
    ErrorView,
> {
    key_fault(algorithm, key, ", but verification requires "@)
}

/// What speaks against a context string: only post-quantum algorithms take one.
pub open spec fn context_fault(algorithm: SignatureAlgorithm, context: Seq<u8>) -> Option<
    ErrorView,
> {
    if context.len() > 0 && !algorithm.is_pq() {
        Some(ErrorView::Key("non-PQ signature algorithm does not accept a context string"@))
    } else {
        None
    }
}

/// Whether the algorithm is a post-quantum one, which signs in a context.
pub fn is_pq_algorithm(algo: &SignatureAlgorithm) -> (r: bool)
    ensures
        r == algo.is_pq(),
{
    matches!(algo, SignatureAlgorithm::MlDsa(_) | SignatureAlgorithm::SlhDsa(_))
}

/// Whether a check passed, or its fault.
pub open spec fn checked(r: Result<()>, fault: Option<ErrorView>) -> bool {
    match fault {
        Some(e) => r is Err && r->Err_0@ == e,
        None => r is Ok,
    }
}

fn mismatch(actual: &PqAlgorithm, requirer: &str, expected: &PqAlgorithm) -> (r: Error)
    ensures
        r@ == ErrorView::Key(
            "key algorithm mismatch: key is "@ + actual.name_text() + requirer@
                + expected.name_text(),
        ),
{
    let head: String = join3("key algorithm mismatch: key is ", actual.name(), requirer);
    Error::Key(head.concat(expected.name()))
}

fn need_private(present: bool, title: &str) -> (r: Result<()>)
    ensures
        checked(
            r,
            if present {
                None
            } else {
                Some(ErrorView::Key(title@ + " private key required for signing"@))
            },
        ),
{
    if present {
        Ok(())
    } else {
        Err(Error::Key(join2(title, " private key required for signing")))
    }
}

/// Checks that a key is suitable for signing with the algorithm.
pub fn validate_signing_key(algorithm: &SignatureAlgorithm, key: &SoftwareKey) -> (r: Result<()>)
    ensures
        checked(r, signing_key_fault(*algorithm, *key)),
{
    match (algorithm, key) {
        (
            SignatureAlgorithm::RsaPkcs1v15(_) | SignatureAlgorithm::RsaPss(_),
            SoftwareKey::Rsa { private, .. },
        ) => need_private(private.is_some(), "RSA"),
        (
            SignatureAlgorithm::Ecdsa(EcCurve::P256, _),
            SoftwareKey::EcP256 { private, .. },
        ) => need_private(private.is_some(), "P-256"),
        (
            SignatureAlgorithm::Ecdsa(EcCurve::P384, _),
            SoftwareKey::EcP384 { private, .. },
        ) => need_private(private.is_some(), "P-384"),
        (
            SignatureAlgorithm::Ecdsa(EcCurve::P521, _),
            SoftwareKey::EcP521 { private, .. },
        ) => need_private(private.is_some(), "P-521"),
        (SignatureAlgorithm::Ed25519, SoftwareKey::Ed25519 { private, .. }) => need_private(
            private.is_some(),
            "Ed25519",
        ),
        (SignatureAlgorithm::Hmac(_), SoftwareKey::Hmac(key_bytes)) => {
            if key_bytes.len() == 0 {
                return Err(Error::Key("HMAC key must not be empty".to_owned()));
            }
            Ok(())
        },
        (SignatureAlgorithm::Dsa(_), SoftwareKey::Dsa { private, .. }) => need_private(
            private.is_some(),
            "DSA",
        ),
        (
            SignatureAlgorithm::MlDsa(variant),
            SoftwareKey::PostQuantum { algorithm: actual, private_der, .. },
        ) => {
            let expected: PqAlgorithm = PqAlgorithm::MlDsa(*variant);
            if *actual != expected {
                return Err(mismatch(actual, ", but signature requires ", &expected));
            }
            need_private(private_der.is_some(), variant.name())
        },
        (
            SignatureAlgorithm::SlhDsa(variant),
            SoftwareKey::PostQuantum { algorithm: actual, private_der, .. },
        ) => {
            let expected: PqAlgorithm = PqAlgorithm::SlhDsa(*variant);
            if *actual != expected {
                return Err(mismatch(actual, ", but signature requires ", &expected));
            }
            need_private(private_der.is_some(), variant.name())
        },
        _ => {
            let name: String = algorithm.debug_name();
            Err(Error::Key(join2("key type does not match algorithm ", name.as_str())))
        },
    }
}

/// Checks that a key is suitable for verifying with the algorithm.
pub fn validate_verifying_key(algorithm: &SignatureAlgorithm, key: &SoftwareKey) -> (r: Result<()>)
    ensures
        checked(r, verifying_key_fault(*algorithm, *key)),
{
    match (algorithm, key) {
        (
            SignatureAlgorithm::RsaPkcs1v15(_) | SignatureAlgorithm::RsaPss(_),
            SoftwareKey::Rsa { .. },
        ) => Ok(()),
        (SignatureAlgorithm::Ecdsa(EcCurve::P256, _), SoftwareKey::EcP256 { .. }) => Ok(()),
        (SignatureAlgorithm::Ecdsa(EcCurve::P384, _), SoftwareKey::EcP384 { .. }) => Ok(()),
        (SignatureAlgorithm::Ecdsa(EcCurve::P521, _), SoftwareKey::EcP521 { .. }) => Ok(()),
        (SignatureAlgorithm::Ed25519, SoftwareKey::Ed25519 { .. }) => Ok(()),
        (SignatureAlgorithm::Hmac(_), SoftwareKey::Hmac(key_bytes)) => {
            if key_bytes.len() == 0 {
                return Err(Error::Key("HMAC key must not be empty".to_owned()));
            }
            Ok(())
        },
        (SignatureAlgorithm::Dsa(_), SoftwareKey::Dsa { .. }) => Ok(()),
        (
            SignatureAlgorithm::MlDsa(variant),
            SoftwareKey::PostQuantum { algorithm: actual, .. },
        ) => {
            let expected: PqAlgorithm = PqAlgorithm::MlDsa(*variant);
            if *actual != expected {
                return Err(mismatch(actual, ", but verification requires ", &expected));
            }
            Ok(())
        },
        (
            SignatureAlgorithm::SlhDsa(variant),
            SoftwareKey::PostQuantum { algorithm: actual, .. },
        ) => {
            let expected: PqAlgorithm = PqAlgorithm::SlhDsa(*variant);
            if *actual != expected {
                return Err(mismatch(actual, ", but verification requires ", &expected));
            }
            Ok(())
        },
        _ => {
            let name: String = algorithm.debug_name();
            Err(Error::Key(join2("key type does not match algorithm ", name.as_str())))
        },
    }
}

/// Whether signing `data` gives an outcome. It does but for RSA private keys that
/// cannot hold the encoded hash or, for PKCS#1 v1.5, whose factors are not prime,
/// and DSA private keys whose `q` is shorter than a byte.
pub open spec fn signing_possible(
    algorithm: SignatureAlgorithm,
    key: SoftwareKey,
    data: Seq<u8>,
) -> bool {
    match algorithm {
        SignatureAlgorithm::RsaPkcs1v15(hash) => pkcs1v15_can_sign(hash, key, data),
        SignatureAlgorithm::RsaPss(hash) => pss_can_sign(hash, key),
        SignatureAlgorithm::Dsa(hash) => dsa_can_sign(hash, key),
        _ => true,
    }
}

/// The possible outcomes of signing `data` with `key` in a context.
pub open spec fn sign_outcome(
    algorithm: SignatureAlgorithm,
    key: SoftwareKey,
    context: Seq<u8>,
    data: Seq<u8>,
    r: core::result::Result<Seq<u8>, ErrorView>,
) -> bool {
    match algorithm {
        SignatureAlgorithm::RsaPkcs1v15(hash) => pkcs1v15_sign_outcome(hash, key, data, r),
        SignatureAlgorithm::RsaPss(hash) => pss_sign_outcome(hash, key, data, r),
        SignatureAlgorithm::Ecdsa(curve, hash) => ecdsa_sign_outcome(curve, hash, key, data, r),
        SignatureAlgorithm::Ed25519 => ed25519_sign_outcome(key, data, r),
        SignatureAlgorithm::Hmac(hash) => {
            &&& r == hmac_sign_outcome(hash, key, data)
            &&& r matches Ok(mac) ==> mac.len() == hash.output_len()
        },
        SignatureAlgorithm::Dsa(hash) => dsa_sign_outcome(hash, key, data, r),
        SignatureAlgorithm::MlDsa(v) => ml_dsa_sign_outcome(v, key, data, context, r),
        SignatureAlgorithm::SlhDsa(v) => slh_dsa_sign_outcome(v, key, data, context, r),
    }
}

/// The answer of verifying `sig` over `data` with `key` in a context.
pub open spec fn verify_outcome(
    algorithm: SignatureAlgorithm,
    key: SoftwareKey,
    context: Seq<u8>,
    data: Seq<u8>,
    sig: Seq<u8>,
) -> core::result::Result<bool, ErrorView> {
    match algorithm {
        SignatureAlgorithm::RsaPkcs1v15(hash) => pkcs1v15_verify_outcome(hash, key, data, sig),
        SignatureAlgorithm::RsaPss(hash) => pss_verify_outcome(hash, key, data, sig),
        SignatureAlgorithm::Ecdsa(curve, hash) => ecdsa_verify_outcome(
            curve,
            hash,
            key,
            data,
            sig,
        ),
        SignatureAlgorithm::Ed25519 => ed25519_verify_outcome(key, data, sig),
        SignatureAlgorithm::Hmac(hash) => hmac_verify_outcome(hash, key, data, sig),
        SignatureAlgorithm::Dsa(hash) => dsa_verify_outcome(hash, key, data, sig),
        SignatureAlgorithm::MlDsa(v) => ml_dsa_verify_outcome(v, key, data, sig, context),
        SignatureAlgorithm::SlhDsa(v) => slh_dsa_verify_outcome(v, key, data, sig, context),
    }
}

/// A signer that holds its algorithm and key material.
pub struct SoftwareSigner {
    algorithm: SignatureAlgorithm,
    key: SoftwareKey,
    /// The context string of ML-DSA and SLH-DSA; empty for every other algorithm.
    pq_context: Vec<u8>,
}

impl SoftwareSigner {
    #[verifier::type_invariant]
    spec fn wf(self) -> bool {
        &&& signing_key_fault(self.algorithm, self.key) is None
        &&& context_fault(self.algorithm, self.pq_context@) is None
    }

    /// The algorithm that is signed with.
    pub closed spec fn spec_algorithm(&self) -> SignatureAlgorithm {
        self.algorithm
    }

    /// The key that is signed with.
    pub closed spec fn spec_key(&self) -> SoftwareKey {
        self.key
    }

    /// The context that is signed in.
    pub closed spec fn spec_context(&self) -> Seq<u8> {
        self.pq_context@
    }

    /// What comes of making a signer: the key's fault, else the context's, else a
    /// signer of just these parts.
    pub open spec fn made(
        r: Result<SoftwareSigner>,
        algorithm: SignatureAlgorithm,
        key: SoftwareKey,
        context: Seq<u8>,
    ) -> bool {
        match signing_key_fault(algorithm, key) {
            Some(e) => r is Err && r->Err_0@ == e,
            None => match context_fault(algorithm, context) {
                Some(e) => r is Err && r->Err_0@ == e,
                None => {
                    &&& r matches Ok(signer)
                    &&& signer.spec_algorithm() == algorithm
                    &&& signer.spec_key() == key
                    &&& signer.spec_context() == context
                },
            },
        }
    }

    /// Makes a signer with an empty context.
    pub fn new(algorithm: SignatureAlgorithm, key: SoftwareKey) -> (r: Result<Self>)
        ensures
            SoftwareSigner::made(r, algorithm, key, Seq::empty()),
    {
        let empty: [u8; 0] = [];
        assert(empty@ =~= Seq::<u8>::empty());
        Self::new_with_pq_context(algorithm, key, vstd::array::array_as_slice(&empty))
    }

    /// Makes a signer with an ML-DSA or SLH-DSA context string. Any other
    /// algorithm takes only the empty context.
    pub fn new_with_pq_context(
        algorithm: SignatureAlgorithm,
        key: SoftwareKey,
        pq_context: &[u8],
    ) -> (r: Result<Self>)
        ensures
            SoftwareSigner::made(r, algorithm, key, pq_context@),
    {
        match validate_signing_key(&algorithm, &key) {
            Ok(_) => {},
            Err(e) => return Err(e),
        }
        if pq_context.len() > 0 && !is_pq_algorithm(&algorithm) {
            return Err(
                Error::Key(
                    "non-PQ signature algorithm does not accept a context string".to_owned(),
                ),
            );
        }
        Ok(SoftwareSigner { algorithm, key, pq_context: to_vec(pq_context) })
    }

    /// Signs `data`. There is no outcome exactly where the key cannot sign: see
    /// [`signing_possible`].
    pub fn checked_sign(&self, data: &[u8]) -> (r: Option<Result<Vec<u8>>>)
        ensures
            r is Some <==> self.can_sign(data@),
            self.spec_algorithm() matches SignatureAlgorithm::RsaPkcs1v15(hash)
                ==> self.spec_key() matches SoftwareKey::Rsa { private: Some(sk), .. }
                ==> are_distinct_primes(rsa_factors(sk)) ==> (r is Some
                <==> rsa_pkcs1v15_signature(hash, sk, data@) is Some),
            r matches Some(o) ==> sign_outcome(
                self.spec_algorithm(),
                self.spec_key(),
                self.spec_context(),
                data@,
                view_outcome(o),
            ),
    {
        match self.algorithm {
            SignatureAlgorithm::RsaPkcs1v15(hash) => rsa_pkcs1v15_checked_sign(
                &self.key,
                hash,
                data,
            ),
            SignatureAlgorithm::RsaPss(hash) => rsa_pss_checked_sign(&self.key, hash, data),
            SignatureAlgorithm::Dsa(hash) => dsa_checked_sign(&self.key, hash, data),
            _ => Some(self.sign(data)),
        }
    }
}

impl Signer for SoftwareSigner {
    open spec fn can_sign(&self, data: Seq<u8>) -> bool {
        signing_possible(self.spec_algorithm(), self.spec_key(), data)
    }

    fn algorithm(&self) -> (r: SignatureAlgorithm)
        ensures
            r == self.spec_algorithm(),
    {
        self.algorithm
    }

    fn sign(&self, data: &[u8]) -> (r: Result<Vec<u8>>)
        ensures
            sign_outcome(
                self.spec_algorithm(),
                self.spec_key(),
                self.spec_context(),
                data@,
                view_outcome(r),
            ),
    {
        match self.algorithm {
            SignatureAlgorithm::RsaPkcs1v15(hash) => rsa_pkcs1v15_sign(&self.key, hash, data),
            SignatureAlgorithm::RsaPss(hash) => rsa_pss_sign(&self.key, hash, data),
            SignatureAlgorithm::Ecdsa(curve, hash) => ecdsa_sign(&self.key, curve, hash, data),
            SignatureAlgorithm::Ed25519 => ed25519_sign(&self.key, data),
            SignatureAlgorithm::Hmac(hash) => hmac_sign(&self.key, hash, data),
            SignatureAlgorithm::Dsa(hash) => dsa_sign(&self.key, hash, data),
            SignatureAlgorithm::MlDsa(variant) => pq_ml_dsa_sign_dispatch(
                &self.key,
                variant,
                data,
                self.pq_context.as_slice(),
            ),
            SignatureAlgorithm::SlhDsa(variant) => pq_slh_dsa_sign_dispatch(
                &self.key,
                variant,
                data,
                self.pq_context.as_slice(),
            ),
        }
    }
}

/// A verifier that holds its algorithm and key material.
pub struct SoftwareVerifier {
    algorithm: SignatureAlgorithm,
    key: SoftwareKey,
    /// The context string; it must be the signer's, byte for byte.
    pq_context: Vec<u8>,
}

impl SoftwareVerifier {
    #[verifier::type_invariant]
    spec fn wf(self) -> bool {
        &&& verifying_key_fault(self.algorithm, self.key) is None
        &&& context_fault(self.algorithm, self.pq_context@) is None
    }

    /// The algorithm that is verified with.
    pub closed spec fn spec_algorithm(&self) -> SignatureAlgorithm {
        self.algorithm
    }

    /// The key that is verified with.
    pub closed spec fn spec_key(&self) -> SoftwareKey {
        self.key
    }

    /// The context that is verified in.
    pub closed spec fn spec_context(&self) -> Seq<u8> {
        self.pq_context@
    }

    /// What comes of making a verifier: the key's fault, else the context's, else
    /// a verifier of just these parts.
    pub open spec fn made(
        r: Result<SoftwareVerifier>,
        algorithm: SignatureAlgorithm,
        key: SoftwareKey,
        context: Seq<u8>,
    ) -> bool {
        match verifying_key_fault(algorithm, key) {
            Some(e) => r is Err && r->Err_0@ == e,
            None => match context_fault(algorithm, context) {
                Some(e) => r is Err && r->Err_0@ == e,
                None => {
                    &&& r matches Ok(verifier)
                    &&& verifier.spec_algorithm() == algorithm
                    &&& verifier.spec_key() == key
                    &&& verifier.spec_context() == context
                },
            },
        }
    }

    /// Makes a verifier with an empty context.
    pub fn new(algorithm: SignatureAlgorithm, key: SoftwareKey) -> (r: Result<Self>)
        ensures
            SoftwareVerifier::made(r, algorithm, key, Seq::empty()),
    {
        let empty: [u8; 0] = [];
        assert(empty@ =~= Seq::<u8>::empty());
        Self::new_with_pq_context(algorithm, key, vstd::array::array_as_slice(&empty))
    }

    /// Makes a verifier with a context string, which must be the signer's: see
    /// [`SoftwareSigner::new_with_pq_context`].
    pub fn new_with_pq_context(
        algorithm: SignatureAlgorithm,
        key: SoftwareKey,
        pq_context: &[u8],
    ) -> (r: Result<Self>)
        ensures
            SoftwareVerifier::made(r, algorithm, key, pq_context@),
    {
        match validate_verifying_key(&algorithm, &key) {
            Ok(_) => {},
            Err(e) => return Err(e),
        }
        if pq_context.len() > 0 && !is_pq_algorithm(&algorithm) {
            return Err(
                Error::Key(
                    "non-PQ signature algorithm does not accept a context string".to_owned(),
                ),
            );
        }
        Ok(SoftwareVerifier { algorithm, key, pq_context: to_vec(pq_context) })
    }
}

impl Verifier for SoftwareVerifier {
    fn algorithm(&self) -> (r: SignatureAlgorithm)
        ensures
            r == self.spec_algorithm(),
    {
        self.algorithm
    }

    fn verify(&self, data: &[u8], signature: &[u8]) -> (r: Result<bool>)
        ensures
            outcome(r) == verify_outcome(
                self.spec_algorithm(),
                self.spec_key(),
                self.spec_context(),
                data@,
                signature@,
            ),
            self.spec_context().len() > 255 ==> !(r matches Ok(true)),
            self.spec_algorithm() is Ed25519 && r is Ok && r->Ok_0 ==> ed25519_strict(signature@),
    {
        proof {
            use_type_invariant(self);
        }
        match self.algorithm {
            SignatureAlgorithm::RsaPkcs1v15(hash) => rsa_pkcs1v15_verify(
                &self.key,
                hash,
                data,
                signature,
            ),
            SignatureAlgorithm::RsaPss(hash) => rsa_pss_verify(&self.key, hash, data, signature),
            SignatureAlgorithm::Ecdsa(curve, hash) => ecdsa_verify(
                &self.key,
                curve,
                hash,
                data,
                signature,
            ),
            SignatureAlgorithm::Ed25519 => ed25519_verify(&self.key, data, signature),
            SignatureAlgorithm::Hmac(hash) => hmac_verify(&self.key, hash, data, signature),
            SignatureAlgorithm::Dsa(hash) => dsa_verify(&self.key, hash, data, signature),
            SignatureAlgorithm::MlDsa(variant) => pq_ml_dsa_verify_dispatch(
                &self.key,
                variant,
                data,
                signature,
                self.pq_context.as_slice(),
            ),
            SignatureAlgorithm::SlhDsa(variant) => pq_slh_dsa_verify_dispatch(
                &self.key,
                variant,
                data,
                signature,
                self.pq_context.as_slice(),
            ),
        }
    }
}

} // verus!
