use kryptering::algorithm::{MlDsaVariant, PqAlgorithm, SignatureAlgorithm};
use kryptering::key::SoftwareKey;
use kryptering::software::ml_dsa::{
    load_ml_dsa_signing_key, ml_dsa_key_from_draw, ml_dsa_key_from_parts, ml_dsa_key_from_seed,
    ml_dsa_seed_from, ml_dsa_verdict, pq_ml_dsa_sign, pq_ml_dsa_sign_dispatch, pq_ml_dsa_verify,
    pq_ml_dsa_verify_dispatch, seed_from_buffer,
};
use kryptering::software::sign::{SoftwareSigner, SoftwareVerifier};
use kryptering::traits::{Signer, Verifier};

const VARIANTS: [MlDsaVariant; 3] = [
    MlDsaVariant::MlDsa44,
    MlDsaVariant::MlDsa65,
    MlDsaVariant::MlDsa87,
];

const V: MlDsaVariant = MlDsaVariant::MlDsa44;

fn key(variant: MlDsaVariant) -> SoftwareKey {
    let mut seed = vec![0x17; 32];
    let key = ml_dsa_key_from_seed(variant, &mut seed).expect("key");
    assert!(seed.is_empty(), "the key takes the seed");
    key
}

fn public_der(variant: MlDsaVariant) -> Vec<u8> {
    match &key(variant) {
        SoftwareKey::PostQuantum { public_der, .. } => public_der.clone(),
        _ => unreachable!(),
    }
}

fn document() -> Vec<u8> {
    let seed = ml_dsa::Seed::try_from(&[0x17; 32][..]).unwrap();
    let key = ml_dsa::SigningKey::<ml_dsa::MlDsa44>::from_seed(&seed);
    pkcs8::EncodePrivateKey::to_pkcs8_der(&key).unwrap().as_bytes().to_vec()
}

#[test]
fn keys_of_a_seed_match_the_outside_encoding() {
    let seed = ml_dsa::Seed::try_from(&[0x17; 32][..]).unwrap();
    let expanded = ml_dsa::ExpandedSigningKey::<ml_dsa::MlDsa44>::from_seed(&seed);
    let der = pkcs8::EncodePublicKey::to_public_key_der(&expanded.verifying_key()).unwrap();
    let SoftwareKey::PostQuantum {
        algorithm,
        private_der,
        public_der,
    } = &key(V)
    else {
        panic!("a post-quantum key");
    };
    assert_eq!(*algorithm, PqAlgorithm::MlDsa(V));
    assert_eq!(*private_der, Some(vec![0x17; 32]));
    assert_eq!(public_der, der.as_bytes());
}

#[test]
fn ml_dsa_signatures_round_trip_in_their_context() {
    for (variant, len) in VARIANTS.into_iter().zip([2420, 3309, 4627]) {
        let algorithm = SignatureAlgorithm::MlDsa(variant);
        let signer =
            SoftwareSigner::new_with_pq_context(algorithm, key(variant), b"one").expect("signer");
        let signature = signer.sign(b"data").expect("signing");
        assert_eq!(signature.len(), len);
        let same = SoftwareVerifier::new_with_pq_context(algorithm, key(variant), b"one")
            .expect("verifier");
        assert!(same.verify(b"data", &signature).unwrap());
        assert!(!same.verify(b"other data", &signature).unwrap());
        let other = SoftwareVerifier::new_with_pq_context(algorithm, key(variant), b"two")
            .expect("verifier");
        assert!(!other.verify(b"data", &signature).unwrap());
        let none = SoftwareVerifier::new(algorithm, key(variant)).expect("verifier");
        assert!(!none.verify(b"data", &signature).unwrap());
    }
}

#[test]
fn private_keys_are_documents_or_seeds() {
    assert_eq!(load_ml_dsa_signing_key(V, &[0x17; 32]).unwrap(), [0x17; 32]);
    assert_eq!(load_ml_dsa_signing_key(V, &document()).unwrap(), [0x17; 32]);
    let signature = pq_ml_dsa_sign(V, &document(), b"data", b"").unwrap();
    assert!(pq_ml_dsa_verify(V, &public_der(V), b"data", &signature, b"").unwrap());
    assert_eq!(
        load_ml_dsa_signing_key(V, &[1; 31]).unwrap_err().to_string(),
        "key error: failed to parse ML-DSA private key: expected PKCS#8 DER or 32-byte seed, got 31 bytes"
    );
    // A document is for one parameter set only.
    assert_eq!(
        pq_ml_dsa_sign(MlDsaVariant::MlDsa65, &document(), b"data", b"")
            .unwrap_err()
            .to_string(),
        format!(
            "key error: failed to parse ML-DSA private key: expected PKCS#8 DER or 32-byte seed, got {} bytes",
            document().len()
        )
    );
}

#[test]
fn long_ml_dsa_contexts_are_refused() {
    let context = [0; 256];
    assert_eq!(
        pq_ml_dsa_sign(V, &[0x17; 32], b"data", &context).unwrap_err().to_string(),
        "crypto error: ML-DSA sign failed: signature error"
    );
    let signature = pq_ml_dsa_sign(V, &[0x17; 32], b"data", &context[..255]).unwrap();
    assert!(pq_ml_dsa_verify(V, &public_der(V), b"data", &signature, &context[..255]).unwrap());
    assert!(!pq_ml_dsa_verify(V, &public_der(V), b"data", &signature, &context).unwrap());
}

#[test]
fn malformed_ml_dsa_inputs_are_told_apart() {
    let error = pq_ml_dsa_verify(V, b"no document", b"", &[0; 2420], b"").unwrap_err();
    assert!(error
        .to_string()
        .starts_with("key error: failed to parse ML-DSA public key: "));
    let error =
        pq_ml_dsa_verify(V, &public_der(MlDsaVariant::MlDsa65), b"", &[0; 2420], b"").unwrap_err();
    assert!(error
        .to_string()
        .starts_with("key error: failed to parse ML-DSA public key: "));
    assert_eq!(
        pq_ml_dsa_verify(V, &public_der(V), b"", &[0; 2419], b"").unwrap_err().to_string(),
        "crypto error: invalid ML-DSA signature length"
    );
    let mut signature = pq_ml_dsa_sign(V, &[0x17; 32], b"data", b"").unwrap();
    signature[2419] = 0xff;
    assert_eq!(
        pq_ml_dsa_verify(V, &public_der(V), b"data", &signature, b"").unwrap_err().to_string(),
        "crypto error: failed to decode ML-DSA signature"
    );
}

#[test]
fn ml_dsa_operations_ask_for_post_quantum_keys() {
    let other = SoftwareKey::Hmac(vec![1]);
    assert_eq!(
        pq_ml_dsa_sign_dispatch(&other, V, b"", b"").unwrap_err().to_string(),
        "key error: ML-DSA-44 private key required for signing"
    );
    assert_eq!(
        pq_ml_dsa_verify_dispatch(&other, MlDsaVariant::MlDsa87, b"", b"", b"")
            .unwrap_err()
            .to_string(),
        "key error: ML-DSA-87 key required for verification"
    );
}

#[test]
fn a_seed_is_taken_from_the_document_first() {
    assert_eq!(ml_dsa_seed_from(Some(vec![1; 32]), &[2; 32]).unwrap(), [1; 32]);
    assert_eq!(ml_dsa_seed_from(None, &[2; 32]).unwrap(), [2; 32]);
    assert_eq!(
        ml_dsa_seed_from(None, &[2; 33]).unwrap_err().to_string(),
        "key error: failed to parse ML-DSA private key: expected PKCS#8 DER or 32-byte seed, got 33 bytes"
    );
}

#[test]
fn verdicts_follow_the_first_fault() {
    let text = |r: kryptering::error::Result<bool>| r.unwrap_err().to_string();
    assert_eq!(
        text(ml_dsa_verdict(false, false, false)),
        "crypto error: invalid ML-DSA signature length"
    );
    assert_eq!(
        text(ml_dsa_verdict(true, false, false)),
        "crypto error: failed to decode ML-DSA signature"
    );
    assert!(ml_dsa_verdict(true, true, true).unwrap());
    assert!(!ml_dsa_verdict(true, true, false).unwrap());
}

#[test]
fn generation_reports_each_failure() {
    match ml_dsa_key_from_draw(V, Err("why".to_string())) {
        Err(e) => assert_eq!(e.to_string(), "crypto error: OS entropy draw failed: why"),
        Ok(_) => panic!("no entropy"),
    }
    let mut seed = vec![1; 32];
    match ml_dsa_key_from_parts(V, &mut seed, Err("why".to_string())) {
        Err(e) => assert_eq!(e.to_string(), "crypto error: ML-DSA SPKI encode: why"),
        Ok(_) => panic!("no document"),
    }
    assert!(seed.is_empty(), "the seed is wiped");
    match &ml_dsa_key_from_draw(V, Ok(vec![0x17; 32])) {
        Ok(SoftwareKey::PostQuantum {
            private_der,
            public_der: document,
            ..
        }) => {
            assert_eq!(*private_der, Some(vec![0x17; 32]));
            assert_eq!(*document, public_der(V));
        }
        _ => panic!("a post-quantum key"),
    }
}

#[test]
fn the_seed_is_taken_from_its_buffer() {
    let mut buffer = [0x17; 32];
    assert_eq!(seed_from_buffer(Ok(()), &mut buffer), Ok(vec![0x17; 32]));
    assert_eq!(buffer, [0; 32]);
    let mut buffer = [0x17; 32];
    assert_eq!(
        seed_from_buffer(Err("why".to_string()), &mut buffer),
        Err("why".to_string())
    );
    assert_eq!(buffer, [0; 32]);
}
