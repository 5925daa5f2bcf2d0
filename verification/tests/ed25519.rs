use kryptering::algorithm::{HashAlgorithm, SignatureAlgorithm};
use kryptering::digest::digest;
use kryptering::key::SoftwareKey;
use kryptering::software::ed25519::{ed25519_sign, ed25519_verify};
use kryptering::software::sign::SoftwareVerifier;
use kryptering::traits::Verifier;

fn hex(text: &str) -> Vec<u8> {
    (0..text.len() / 2)
        .map(|i| u8::from_str_radix(&text[2 * i..2 * i + 2], 16).unwrap())
        .collect()
}

fn signing_key() -> ed25519_dalek::SigningKey {
    let secret = hex("9d61b19deffd5a60ba844af492ec2cc44449c5697b326919703bac031cae7f60");
    ed25519_dalek::SigningKey::from_bytes(&secret.try_into().unwrap())
}

fn full_key() -> SoftwareKey {
    let private = signing_key();
    let public = private.verifying_key();
    SoftwareKey::Ed25519 {
        private: Some(private),
        public,
    }
}

fn public_only() -> SoftwareKey {
    SoftwareKey::Ed25519 {
        private: None,
        public: signing_key().verifying_key(),
    }
}

#[test]
fn ed25519_signature_has_the_known_value() {
    let signature = ed25519_sign(&full_key(), b"").unwrap();
    assert_eq!(
        signature,
        hex(
            "e5564300c360ac729086e2cc806e828a84877f1eb8e5d974d873e06522490155\
             5fb8821590a33bacc61e39701cf9b46bd25bf5f0595bbe24655141438e7a100b"
        )
    );
    assert!(ed25519_verify(&public_only(), b"", &signature).unwrap());
    assert!(ed25519_verify(&full_key(), b"", &signature).unwrap());
}

#[test]
fn a_private_ed25519_key_decides_over_the_stored_public_key() {
    let mixed = SoftwareKey::Ed25519 {
        private: Some(signing_key()),
        public: ed25519_dalek::SigningKey::from_bytes(&[3; 32]).verifying_key(),
    };
    let signature = ed25519_sign(&mixed, b"data").unwrap();
    assert!(ed25519_verify(&mixed, b"data", &signature).unwrap());
}

#[test]
fn strict_rules_refuse_low_orders_and_unreduced_scalars() {
    let verifier = SoftwareVerifier::new(SignatureAlgorithm::Ed25519, public_only()).unwrap();
    let good = ed25519_sign(&full_key(), b"data").unwrap();
    assert!(verifier.verify(b"data", &good).unwrap());

    let mut identity = good.clone();
    identity[..32].fill(0);
    identity[0] = 1;
    assert!(!verifier.verify(b"data", &identity).unwrap());

    let mut order_two = good.clone();
    order_two[..32].fill(0xff);
    order_two[0] = 0xec;
    order_two[31] = 0x7f;
    assert!(!verifier.verify(b"data", &order_two).unwrap());

    for point in [
        "0000000000000000000000000000000000000000000000000000000000000080",
        "26e8958fc2b227b045c3f489f2ef98f0d5dfac05d3c63339b13802886d53fc05",
        "c7176a703d4dd84fba3c0b760d10670f2a2053fa2c39ccc64ec7fd7792ac03fa",
        // The neutral element with y = p + 1, which is not canonical.
        "eeffffffffffffffffffffffffffffffffffffffffffffffffffffffffffff7f",
    ] {
        let mut low = good.clone();
        low[..32].copy_from_slice(&hex(point));
        assert!(!verifier.verify(b"data", &low).unwrap());
    }

    // The same scalar, made larger by the order of the base point.
    let order = hex("edd3f55c1a631258d69cf7a2def9de1400000000000000000000000000000010");
    let mut unreduced = good.clone();
    let mut carry = 0u16;
    for i in 0..32 {
        let sum = unreduced[32 + i] as u16 + order[i] as u16 + carry;
        unreduced[32 + i] = sum as u8;
        carry = sum >> 8;
    }
    assert!(!verifier.verify(b"data", &unreduced).unwrap());
}

#[test]
fn ed25519_errors_are_told_apart() {
    let other = SoftwareKey::Hmac(vec![1]);
    assert_eq!(
        ed25519_sign(&other, b"").unwrap_err().to_string(),
        "key error: Ed25519 private key required"
    );
    assert_eq!(
        ed25519_sign(&public_only(), b"").unwrap_err().to_string(),
        "key error: Ed25519 private key required"
    );
    assert_eq!(
        ed25519_verify(&other, b"", &[0; 64]).unwrap_err().to_string(),
        "key error: Ed25519 key required"
    );
    for len in [0, 63, 65] {
        assert_eq!(
            ed25519_verify(&public_only(), b"", &vec![0; len])
                .unwrap_err()
                .to_string(),
            "crypto error: invalid Ed25519 signature: signature error"
        );
    }
}

#[test]
fn ed25519_signatures_are_for_their_data_only() {
    let signature = ed25519_sign(&full_key(), b"data").expect("signing");
    assert!(ed25519_verify(&public_only(), b"data", &signature).unwrap());
    for other in [&b""[..], b"dat", b"data ", b"Data"] {
        assert!(!ed25519_verify(&public_only(), other, &signature).unwrap());
        let challenge = |data: &[u8]| {
            let mut hashed = signature[..32].to_vec();
            hashed.extend_from_slice(signing_key().verifying_key().as_bytes());
            hashed.extend_from_slice(data);
            digest(HashAlgorithm::Sha512, &hashed)
        };
        assert_ne!(challenge(other), challenge(b"data"));
    }
}
