use kryptering::algorithm::{
    EcCurve, HashAlgorithm, MlDsaVariant, PqAlgorithm, SignatureAlgorithm, SlhDsaVariant,
};
use kryptering::error::Error;
use kryptering::key::{P256SigningKey, P384SigningKey, P521SigningKey, SoftwareKey};
use kryptering::software::hmac::{hmac_sign, hmac_verify};
use kryptering::software::sign::{
    is_pq_algorithm, validate_signing_key, validate_verifying_key, SoftwareSigner,
    SoftwareVerifier,
};
use kryptering::traits::{Signer, Verifier};

const SHA256: HashAlgorithm = HashAlgorithm::Sha256;
const ML: SignatureAlgorithm = SignatureAlgorithm::MlDsa(MlDsaVariant::MlDsa65);
const SLH: SignatureAlgorithm = SignatureAlgorithm::SlhDsa(SlhDsaVariant::Sha2_192s);

fn pq(algorithm: PqAlgorithm, private: bool) -> SoftwareKey {
    SoftwareKey::PostQuantum {
        algorithm,
        private_der: if private { Some(vec![1; 32]) } else { None },
        public_der: Vec::new(),
    }
}

fn ed25519() -> SoftwareKey {
    SoftwareKey::Ed25519 {
        private: None,
        public: ed25519_dalek::SigningKey::from_bytes(&[1; 32]).verifying_key(),
    }
}

fn key_text(r: Result<(), Error>) -> String {
    match r {
        Err(Error::Key(text)) => text,
        _ => panic!("a key error"),
    }
}

#[test]
fn keys_without_a_private_half_verify_only() {
    let rsa = rsa::RsaPrivateKey::new(&mut rand::rngs::OsRng, 512).unwrap().to_public_key();
    let cases = [
        (
            SignatureAlgorithm::RsaPkcs1v15(SHA256),
            SoftwareKey::Rsa {
                private: None,
                public: rsa.clone(),
            },
            "RSA private key required for signing",
        ),
        (
            SignatureAlgorithm::RsaPss(SHA256),
            SoftwareKey::Rsa {
                private: None,
                public: rsa,
            },
            "RSA private key required for signing",
        ),
        (
            SignatureAlgorithm::Ecdsa(EcCurve::P256, SHA256),
            SoftwareKey::EcP256 {
                private: None,
                public: P256SigningKey::from_slice(&[1; 32]).unwrap().verifying_key(),
            },
            "P-256 private key required for signing",
        ),
        (
            SignatureAlgorithm::Ecdsa(EcCurve::P384, SHA256),
            SoftwareKey::EcP384 {
                private: None,
                public: P384SigningKey::from_slice(&[1; 48]).unwrap().verifying_key(),
            },
            "P-384 private key required for signing",
        ),
        (
            SignatureAlgorithm::Ecdsa(EcCurve::P521, SHA256),
            SoftwareKey::EcP521 {
                private: None,
                public: P521SigningKey::from_slice(&[1; 66]).unwrap().verifying_key(),
            },
            "P-521 private key required for signing",
        ),
        (
            SignatureAlgorithm::Ed25519,
            ed25519(),
            "Ed25519 private key required for signing",
        ),
        (
            SignatureAlgorithm::Dsa(SHA256),
            SoftwareKey::Dsa {
                private: None,
                public: dsa::VerifyingKey::from_components(
                    dsa::Components::from_components(23u32.into(), 11u32.into(), 4u32.into())
                        .unwrap(),
                    18u32.into(),
                )
                .unwrap(),
            },
            "DSA private key required for signing",
        ),
        (
            ML,
            pq(PqAlgorithm::MlDsa(MlDsaVariant::MlDsa65), false),
            "ML-DSA-65 private key required for signing",
        ),
        (
            SLH,
            pq(PqAlgorithm::SlhDsa(SlhDsaVariant::Sha2_192s), false),
            "SLH-DSA-SHA2-192s private key required for signing",
        ),
    ];
    for (algorithm, key, text) in cases {
        assert_eq!(key_text(validate_signing_key(&algorithm, &key)), text);
        assert!(validate_verifying_key(&algorithm, &key).is_ok());
    }
}

#[test]
fn fit_keys_pass() {
    let hmac = SignatureAlgorithm::Hmac(SHA256);
    assert!(validate_signing_key(&hmac, &SoftwareKey::Hmac(vec![0])).is_ok());
    assert!(validate_verifying_key(&hmac, &SoftwareKey::Hmac(vec![0])).is_ok());
    let key = pq(PqAlgorithm::MlDsa(MlDsaVariant::MlDsa65), true);
    assert!(validate_signing_key(&ML, &key).is_ok());
    assert!(validate_verifying_key(&ML, &key).is_ok());
    let key = pq(PqAlgorithm::SlhDsa(SlhDsaVariant::Sha2_192s), true);
    assert!(validate_signing_key(&SLH, &key).is_ok());
    assert!(validate_verifying_key(&SLH, &key).is_ok());
}

#[test]
fn keys_of_another_type_are_refused() {
    let cases = [
        (SignatureAlgorithm::RsaPkcs1v15(SHA256), "RsaPkcs1v15(Sha256)"),
        (SignatureAlgorithm::RsaPss(HashAlgorithm::Sha3_512), "RsaPss(Sha3_512)"),
        (SignatureAlgorithm::Ecdsa(EcCurve::P521, SHA256), "Ecdsa(P521, Sha256)"),
        (SignatureAlgorithm::Hmac(HashAlgorithm::Md5), "Hmac(Md5)"),
        (SignatureAlgorithm::Dsa(HashAlgorithm::Ripemd160), "Dsa(Ripemd160)"),
        (ML, "MlDsa(MlDsa65)"),
        (SLH, "SlhDsa(Sha2_192s)"),
    ];
    for (algorithm, name) in cases {
        let text = format!("key type does not match algorithm {name}");
        assert_eq!(key_text(validate_signing_key(&algorithm, &ed25519())), text);
        assert_eq!(key_text(validate_verifying_key(&algorithm, &ed25519())), text);
    }
    assert_eq!(
        key_text(validate_signing_key(
            &SignatureAlgorithm::Ed25519,
            &SoftwareKey::Hmac(vec![1])
        )),
        "key type does not match algorithm Ed25519"
    );
}

#[test]
fn post_quantum_keys_of_another_scheme_are_refused() {
    let key = pq(PqAlgorithm::MlDsa(MlDsaVariant::MlDsa44), true);
    assert_eq!(
        key_text(validate_signing_key(&ML, &key)),
        "key algorithm mismatch: key is ML-DSA-44, but signature requires ML-DSA-65"
    );
    assert_eq!(
        key_text(validate_verifying_key(&ML, &key)),
        "key algorithm mismatch: key is ML-DSA-44, but verification requires ML-DSA-65"
    );
    assert_eq!(
        key_text(validate_signing_key(&SLH, &key)),
        "key algorithm mismatch: key is ML-DSA-44, but signature requires SLH-DSA-SHA2-192s"
    );
    assert_eq!(
        key_text(validate_verifying_key(&SLH, &key)),
        "key algorithm mismatch: key is ML-DSA-44, but verification requires SLH-DSA-SHA2-192s"
    );
}

#[test]
fn contexts_are_for_post_quantum_algorithms() {
    assert!(is_pq_algorithm(&ML));
    assert!(is_pq_algorithm(&SLH));
    assert!(!is_pq_algorithm(&SignatureAlgorithm::Ed25519));
    let key = || pq(PqAlgorithm::MlDsa(MlDsaVariant::MlDsa65), true);
    assert!(SoftwareSigner::new_with_pq_context(ML, key(), b"context").is_ok());
    assert!(SoftwareVerifier::new_with_pq_context(ML, key(), b"context").is_ok());
    let hmac = SignatureAlgorithm::Hmac(SHA256);
    let secret = || SoftwareKey::Hmac(vec![1]);
    assert!(SoftwareSigner::new_with_pq_context(hmac, secret(), b"").is_ok());
    assert!(SoftwareVerifier::new_with_pq_context(hmac, secret(), b"").is_ok());
    match SoftwareVerifier::new_with_pq_context(hmac, secret(), b"context") {
        Err(Error::Key(text)) => assert_eq!(
            text,
            "non-PQ signature algorithm does not accept a context string"
        ),
        _ => panic!("a key error"),
    }
    // A fault of the key is told before one of the context.
    match SoftwareSigner::new_with_pq_context(hmac, ed25519(), b"context") {
        Err(Error::Key(text)) => {
            assert_eq!(text, "key type does not match algorithm Hmac(Sha256)")
        }
        _ => panic!("a key error"),
    }
}

#[test]
fn codes_need_a_secret() {
    assert_eq!(
        hmac_sign(&ed25519(), SHA256, b"").unwrap_err().to_string(),
        "key error: HMAC key required"
    );
    assert_eq!(
        hmac_verify(&ed25519(), SHA256, b"", b"").unwrap_err().to_string(),
        "key error: HMAC key required"
    );
    let secret = SoftwareKey::Hmac(b"key".to_vec());
    let code = hmac_sign(&secret, SHA256, b"data").unwrap();
    assert!(hmac_verify(&secret, SHA256, b"data", &code).unwrap());
    assert!(!hmac_verify(&secret, SHA256, b"data", &code[1..]).unwrap());
}

#[test]
fn validated_keys_are_not_blamed() {
    let private = ed25519_dalek::SigningKey::from_bytes(&[1; 32]);
    let public = private.verifying_key();
    let key = SoftwareKey::Ed25519 {
        private: Some(private),
        public,
    };
    let signer = SoftwareSigner::new(SignatureAlgorithm::Ed25519, key).unwrap();
    assert!(signer.sign(b"data").is_ok());
    let verifier = SoftwareVerifier::new(SignatureAlgorithm::Ed25519, ed25519()).unwrap();
    assert!(matches!(verifier.verify(b"data", b"short"), Err(Error::Crypto(_))));
    // A post-quantum key is read only when it is used.
    let key = pq(PqAlgorithm::MlDsa(MlDsaVariant::MlDsa65), true);
    let verifier = SoftwareVerifier::new(ML, key).unwrap();
    assert!(matches!(verifier.verify(b"data", b"short"), Err(Error::Key(_))));
}

#[test]
fn an_empty_context_is_no_context() {
    let hmac = SignatureAlgorithm::Hmac(SHA256);
    let secret = || SoftwareKey::Hmac(b"key".to_vec());
    let plain = SoftwareSigner::new(hmac, secret()).unwrap();
    let empty = SoftwareSigner::new_with_pq_context(hmac, secret(), b"").unwrap();
    assert_eq!(plain.sign(b"data").unwrap(), empty.sign(b"data").unwrap());
}
