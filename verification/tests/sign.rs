use kryptering::algorithm::{HashAlgorithm, MlDsaVariant, PqAlgorithm, SignatureAlgorithm};
use kryptering::key::SoftwareKey;
use kryptering::software::ml_dsa::generate_ml_dsa;
use kryptering::software::sign::{SoftwareSigner, SoftwareVerifier};
use kryptering::traits::{Signer, Verifier};

#[test]
fn ed25519_roundtrip() {
    let sk = ed25519_dalek::SigningKey::generate(&mut rand::rngs::OsRng);
    let vk = sk.verifying_key();

    let sign_key = SoftwareKey::Ed25519 {
        private: Some(sk.clone()),
        public: vk,
    };
    let signer =
        SoftwareSigner::new(SignatureAlgorithm::Ed25519, sign_key).expect("signer creation");
    let data = b"The quick brown fox jumps over the lazy dog";
    let signature = signer.sign(data).expect("signing should succeed");

    // Verify with public-only key
    let verify_key = SoftwareKey::Ed25519 {
        private: None,
        public: vk,
    };
    let verifier = SoftwareVerifier::new(SignatureAlgorithm::Ed25519, verify_key)
        .expect("verifier creation");
    assert!(
        verifier.verify(data, &signature).unwrap(),
        "Ed25519 roundtrip should verify"
    );

    // Tampered data should fail
    assert!(
        !verifier.verify(b"tampered data", &signature).unwrap(),
        "Ed25519 verification of tampered data should return false"
    );
}

/// Strict verification must reject a signature whose `R` has a low order.
#[test]
fn ed25519_rejects_low_order_r() {
    let sk = ed25519_dalek::SigningKey::generate(&mut rand::rngs::OsRng);
    let vk = sk.verifying_key();
    let verify_key = SoftwareKey::Ed25519 {
        private: None,
        public: vk,
    };
    let verifier = SoftwareVerifier::new(SignatureAlgorithm::Ed25519, verify_key)
        .expect("verifier creation");

    let bogus_sig = [0u8; 64];
    let result = verifier.verify(b"irrelevant message", &bogus_sig).unwrap();
    assert!(!result, "low-order R signature must not verify");
}

#[test]
fn hmac_sha256_roundtrip() {
    let secret = b"super-secret-key-for-hmac-testing";
    let algo = SignatureAlgorithm::Hmac(HashAlgorithm::Sha256);

    let sign_key = SoftwareKey::Hmac(secret.to_vec());
    let signer = SoftwareSigner::new(algo, sign_key).expect("signer creation");
    let data = b"message to authenticate";
    let mac = signer.sign(data).expect("HMAC should succeed");
    assert_eq!(mac.len(), 32, "SHA-256 HMAC output should be 32 bytes");

    let verify_key = SoftwareKey::Hmac(secret.to_vec());
    let verifier = SoftwareVerifier::new(algo, verify_key).expect("verifier creation");
    assert!(
        verifier.verify(data, &mac).unwrap(),
        "HMAC roundtrip should verify"
    );

    // Wrong key should fail
    let wrong_key = SoftwareKey::Hmac(b"wrong-key".to_vec());
    let wrong_verifier = SoftwareVerifier::new(algo, wrong_key).expect("verifier creation");
    assert!(
        !wrong_verifier.verify(data, &mac).unwrap(),
        "HMAC with wrong key should fail"
    );
}

#[test]
fn hmac_rejects_empty_key() {
    let err = match SoftwareSigner::new(
        SignatureAlgorithm::Hmac(HashAlgorithm::Sha256),
        SoftwareKey::Hmac(Vec::new()),
    ) {
        Ok(_) => panic!("empty HMAC key should be rejected"),
        Err(e) => e,
    };
    assert!(err.to_string().contains("must not be empty"), "{err:?}");

    let err = match SoftwareVerifier::new(
        SignatureAlgorithm::Hmac(HashAlgorithm::Sha256),
        SoftwareKey::Hmac(Vec::new()),
    ) {
        Ok(_) => panic!("empty HMAC key should be rejected"),
        Err(e) => e,
    };
    assert!(err.to_string().contains("must not be empty"), "{err:?}");
}

#[test]
fn new_with_pq_context_rejects_non_pq_algorithm() {
    let key = SoftwareKey::Hmac(b"shhh".to_vec());
    let err = match SoftwareSigner::new_with_pq_context(
        SignatureAlgorithm::Hmac(HashAlgorithm::Sha256),
        key,
        b"protocol-v1",
    ) {
        Ok(_) => panic!("non-PQ algorithm with context should be rejected"),
        Err(e) => e,
    };
    assert!(
        err.to_string().contains("does not accept a context"),
        "{err:?}"
    );
}

#[test]
fn key_algorithm_mismatch_rejected() {
    let key = SoftwareKey::Hmac(b"key".to_vec());
    let result = SoftwareSigner::new(SignatureAlgorithm::Ed25519, key);
    assert!(
        result.is_err(),
        "HMAC key with Ed25519 algorithm should fail"
    );

    let key = SoftwareKey::Ed25519 {
        private: None,
        public: ed25519_dalek::SigningKey::generate(&mut rand::rngs::OsRng).verifying_key(),
    };
    let result = SoftwareSigner::new(SignatureAlgorithm::Ed25519, key);
    assert!(
        result.is_err(),
        "Ed25519 public-only key should fail for signing"
    );
}

/// Two signatures over the same message with the same key must differ, and both
/// must verify.
#[test]
fn ml_dsa_44_sign_is_randomized_and_verifies() {
    let seed_bytes = [0x42u8; 32];
    let seed = ml_dsa::Seed::try_from(&seed_bytes[..]).expect("32 bytes");
    let expanded_sk = ml_dsa::ExpandedSigningKey::<ml_dsa::MlDsa44>::from_seed(&seed);
    let public_der = pkcs8::EncodePublicKey::to_public_key_der(&expanded_sk.verifying_key())
        .expect("public key DER encoding")
        .to_vec();

    let sign_key = SoftwareKey::PostQuantum {
        algorithm: PqAlgorithm::MlDsa(MlDsaVariant::MlDsa44),
        private_der: Some(seed_bytes.to_vec()),
        public_der: public_der.clone(),
    };
    let signer = SoftwareSigner::new(SignatureAlgorithm::MlDsa(MlDsaVariant::MlDsa44), sign_key)
        .expect("signer creation");

    let data = b"FIPS 204 randomized signing property test";
    let sig1 = signer.sign(data).expect("first sign");
    let sig2 = signer.sign(data).expect("second sign");

    assert_ne!(
        sig1, sig2,
        "ML-DSA sign_randomized must produce different signatures for the same message"
    );

    let verify_key = SoftwareKey::PostQuantum {
        algorithm: PqAlgorithm::MlDsa(MlDsaVariant::MlDsa44),
        private_der: None,
        public_der,
    };
    let verifier =
        SoftwareVerifier::new(SignatureAlgorithm::MlDsa(MlDsaVariant::MlDsa44), verify_key)
            .expect("verifier creation");

    assert!(
        verifier.verify(data, &sig1).expect("verify call"),
        "first signature must verify"
    );
    assert!(
        verifier.verify(data, &sig2).expect("verify call"),
        "second signature must verify"
    );
}

/// The generated key must sign and verify against itself, at every security
/// level.
#[test]
fn generate_ml_dsa_round_trips_all_variants() {
    for variant in [
        MlDsaVariant::MlDsa44,
        MlDsaVariant::MlDsa65,
        MlDsaVariant::MlDsa87,
    ] {
        let key = generate_ml_dsa(variant).expect("generate_ml_dsa");
        let SoftwareKey::PostQuantum {
            private_der,
            public_der,
            ..
        } = &key
        else {
            panic!("generate_ml_dsa returned non-PQ SoftwareKey");
        };
        assert_eq!(
            private_der.as_ref().map(Vec::len),
            Some(32),
            "{} private must be a 32-byte seed",
            variant.name()
        );
        assert!(
            !public_der.is_empty(),
            "{} public_der must be populated",
            variant.name()
        );

        let data = b"generate_ml_dsa round-trip";
        let signer = SoftwareSigner::new(SignatureAlgorithm::MlDsa(variant), clone_pq_key(&key))
            .expect("signer");
        let verifier =
            SoftwareVerifier::new(SignatureAlgorithm::MlDsa(variant), clone_pq_key(&key))
                .expect("verifier");

        let sig = signer.sign(data).expect("sign");
        assert!(verifier.verify(data, &sig).expect("verify call"));
    }
}

fn clone_pq_key(key: &SoftwareKey) -> SoftwareKey {
    let SoftwareKey::PostQuantum {
        algorithm,
        private_der,
        public_der,
    } = key
    else {
        panic!("expected PostQuantum");
    };
    SoftwareKey::PostQuantum {
        algorithm: *algorithm,
        private_der: private_der.clone(),
        public_der: public_der.clone(),
    }
}

/// Two successive `generate_ml_dsa` calls must produce different seeds.
#[test]
fn generate_ml_dsa_seeds_are_unique() {
    let a = generate_ml_dsa(MlDsaVariant::MlDsa44).unwrap();
    let b = generate_ml_dsa(MlDsaVariant::MlDsa44).unwrap();
    let (
        SoftwareKey::PostQuantum {
            private_der: pa, ..
        },
        SoftwareKey::PostQuantum {
            private_der: pb, ..
        },
    ) = (&a, &b)
    else {
        panic!("unexpected variant");
    };
    assert_ne!(pa, pb, "two generate_ml_dsa calls must differ");
}
