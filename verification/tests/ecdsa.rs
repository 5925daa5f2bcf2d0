use kryptering::algorithm::{EcCurve, HashAlgorithm, SignatureAlgorithm};
use kryptering::key::{
    P256SigningKey, P256VerifyingKey, P384SigningKey, P384VerifyingKey, P521SigningKey,
    P521VerifyingKey, SoftwareKey,
};
use kryptering::software::ecdsa::{ecdsa_sign, ecdsa_verify, raw_to_ecdsa_sig};
use kryptering::software::sign::{SoftwareSigner, SoftwareVerifier};
use kryptering::traits::{Signer, Verifier};

const P256_SECRET: &str = "C9AFA9D845BA75166B5C215767B1D6934E50C3DB36E89B127B8A622B120F6721";
const P384_SECRET: &str = "6B9D3DAD2E1B8C1C05B19875B6659F4DE23C3B667BF297BA9AA47740787137D8\
                           96D5724E4C70A825F872C9EA60D2EDF5";

const CURVES: [EcCurve; 3] = [EcCurve::P256, EcCurve::P384, EcCurve::P521];

fn hex(text: &str) -> Vec<u8> {
    (0..text.len() / 2)
        .map(|i| u8::from_str_radix(&text[2 * i..2 * i + 2], 16).unwrap())
        .collect()
}

fn full_key(curve: EcCurve) -> SoftwareKey {
    match curve {
        EcCurve::P256 => {
            let private = P256SigningKey::from_slice(&hex(P256_SECRET)).unwrap();
            let public = private.verifying_key();
            SoftwareKey::EcP256 {
                private: Some(private),
                public,
            }
        }
        EcCurve::P384 => {
            let private = P384SigningKey::from_slice(&hex(P384_SECRET)).unwrap();
            let public = private.verifying_key();
            SoftwareKey::EcP384 {
                private: Some(private),
                public,
            }
        }
        EcCurve::P521 => {
            let private = P521SigningKey::from_slice(&[1; 66]).unwrap();
            let public = private.verifying_key();
            SoftwareKey::EcP521 {
                private: Some(private),
                public,
            }
        }
    }
}

fn public_only(curve: EcCurve) -> SoftwareKey {
    match &full_key(curve) {
        SoftwareKey::EcP256 { public, .. } => SoftwareKey::EcP256 {
            private: None,
            public: P256VerifyingKey::from_sec1_bytes(public.as_bytes()).expect("a point"),
        },
        SoftwareKey::EcP384 { public, .. } => SoftwareKey::EcP384 {
            private: None,
            public: P384VerifyingKey::from_sec1_bytes(public.as_bytes()).expect("a point"),
        },
        SoftwareKey::EcP521 { public, .. } => SoftwareKey::EcP521 {
            private: None,
            public: P521VerifyingKey::from_sec1_bytes(public.as_bytes()).expect("a point"),
        },
        _ => unreachable!(),
    }
}

fn signature_len(curve: EcCurve) -> usize {
    match curve {
        EcCurve::P256 => 64,
        EcCurve::P384 => 96,
        EcCurve::P521 => 132,
    }
}

#[test]
fn p256_signature_has_the_known_value() {
    let signature = ecdsa_sign(
        &full_key(EcCurve::P256),
        EcCurve::P256,
        HashAlgorithm::Sha256,
        b"sample",
    )
    .unwrap();
    assert_eq!(
        signature,
        hex(
            "EFD48B2AACB6A8FD1140DD9CD45E81D69D2C877B56AAF991C34D0EA84EAF3716\
             F7CB1C942D657C41D436C7A1B6E29F65F3E900DBB9AFF4064DC4AB2F843ACDA8"
        )
    );
}

#[test]
fn p384_signature_has_the_known_value() {
    let signature = ecdsa_sign(
        &full_key(EcCurve::P384),
        EcCurve::P384,
        HashAlgorithm::Sha384,
        b"sample",
    )
    .unwrap();
    assert_eq!(
        signature,
        hex(
            "94EDBB92A5ECB8AAD4736E56C691916B3F88140666CE9FA73D64C4EA95AD133C\
             81A648152E44ACF96E36DD1E80FABE46\
             99EF4AEB15F178CEA1FE40DB2603138F130E740A19624526203B6351D0A3A94F\
             A329C145786E679E7B82C71A38628AC8"
        )
    );
}

#[test]
fn signatures_round_trip_on_every_curve() {
    let hashes = [
        HashAlgorithm::Sha1,
        HashAlgorithm::Sha256,
        HashAlgorithm::Sha384,
        HashAlgorithm::Sha512,
        HashAlgorithm::Sha3_512,
        HashAlgorithm::Md5,
    ];
    for curve in CURVES {
        for hash in hashes {
            let algorithm = SignatureAlgorithm::Ecdsa(curve, hash);
            let signer = SoftwareSigner::new(algorithm, full_key(curve)).expect("signer");
            let signature = signer.sign(b"data").expect("signing");
            assert_eq!(signature.len(), signature_len(curve));
            for key in [full_key(curve), public_only(curve)] {
                let verifier = SoftwareVerifier::new(algorithm, key).expect("verifier");
                assert!(verifier.verify(b"data", &signature).unwrap());
                assert!(!verifier.verify(b"other data", &signature).unwrap());
            }
        }
    }
}

#[test]
fn only_p521_signatures_are_randomized() {
    for curve in CURVES {
        let algorithm = SignatureAlgorithm::Ecdsa(curve, HashAlgorithm::Sha256);
        let signer = SoftwareSigner::new(algorithm, full_key(curve)).expect("signer");
        let first = signer.sign(b"data").expect("signing");
        let second = signer.sign(b"data").expect("signing");
        assert_eq!(first == second, curve != EcCurve::P521);
    }
}

#[test]
fn a_private_key_decides_over_the_stored_public_key() {
    let other = P256SigningKey::from_slice(&[7; 32]).unwrap();
    let mixed = SoftwareKey::EcP256 {
        private: Some(P256SigningKey::from_slice(&hex(P256_SECRET)).unwrap()),
        public: other.verifying_key(),
    };
    let hash = HashAlgorithm::Sha256;
    let signature = ecdsa_sign(&mixed, EcCurve::P256, hash, b"data").unwrap();
    assert!(ecdsa_verify(&mixed, EcCurve::P256, hash, b"data", &signature).unwrap());
}

#[test]
fn malformed_signatures_are_refused() {
    let titles = ["P-256", "P-384", "P-521"];
    for (curve, title) in CURVES.into_iter().zip(titles) {
        let len = signature_len(curve);
        let expected = format!("crypto error: invalid {title} signature: signature error");
        let mut zero_s = vec![0; len];
        zero_s[len / 2 - 1] = 1;
        for sig in [vec![1; len - 1], vec![0; len], vec![0xff; len], zero_s] {
            let error = ecdsa_verify(&public_only(curve), curve, HashAlgorithm::Sha256, b"", &sig)
                .unwrap_err();
            assert_eq!(error.to_string(), expected);
            assert_eq!(raw_to_ecdsa_sig(curve, &sig).unwrap_err().to_string(), expected);
        }
        let mut one_one = vec![0; len];
        one_one[len / 2 - 1] = 1;
        one_one[len - 1] = 1;
        assert_eq!(raw_to_ecdsa_sig(curve, &one_one).unwrap(), one_one);
    }
}

#[test]
fn keys_of_another_curve_are_refused() {
    let hash = HashAlgorithm::Sha256;
    assert_eq!(
        ecdsa_sign(&full_key(EcCurve::P384), EcCurve::P256, hash, b"")
            .unwrap_err()
            .to_string(),
        "key error: ECDSA P256 private key required for signing"
    );
    assert_eq!(
        ecdsa_sign(&public_only(EcCurve::P521), EcCurve::P521, hash, b"")
            .unwrap_err()
            .to_string(),
        "key error: ECDSA P521 private key required for signing"
    );
    assert_eq!(
        ecdsa_verify(&full_key(EcCurve::P256), EcCurve::P384, hash, b"", b"")
            .unwrap_err()
            .to_string(),
        "key error: ECDSA P384 key required for verification"
    );
}

#[test]
fn private_keys_are_read_from_their_range_only() {
    assert!(P256SigningKey::from_slice(&[0; 32]).is_none());
    assert!(P256SigningKey::from_slice(&[0xff; 32]).is_none());
    assert!(P256SigningKey::from_slice(&[1; 23]).is_none());
    assert!(P256SigningKey::from_slice(&[1; 33]).is_none());
    let short = P256SigningKey::from_slice(&[1; 24]).unwrap();
    assert_eq!(&short.as_bytes()[..8], &[0; 8]);
    assert_eq!(&short.as_bytes()[8..], &[1; 24]);
    let order = hex("ffffffff00000000ffffffffffffffffbce6faada7179e84f3b9cac2fc632551");
    assert!(P256SigningKey::from_slice(&order).is_none());
    let mut below = order;
    below[31] -= 1;
    assert_eq!(P256SigningKey::from_slice(&below).unwrap().as_bytes(), below);

    let mut order = hex(
        "ffffffffffffffffffffffffffffffffffffffffffffffffc7634d81f4372ddf\
         581a0db248b0a77aecec196accc52973",
    );
    assert!(P384SigningKey::from_slice(&order).is_none());
    order[47] -= 1;
    assert_eq!(P384SigningKey::from_slice(&order).unwrap().as_bytes(), order);

    let mut order = hex(
        "01fffffffffffffffffffffffffffffffffffffffffffffffffffffffffffffffffa\
         51868783bf2f966b7fcc0148f709a5d03bb5c9b8899c47aebb6fb71e91386409",
    );
    assert!(P521SigningKey::from_slice(&order).is_none());
    order[65] -= 1;
    assert_eq!(P521SigningKey::from_slice(&order).unwrap().as_bytes(), order);
}

#[test]
fn public_keys_are_read_compressed_or_not() {
    let public = P256SigningKey::from_slice(&hex(P256_SECRET)).unwrap().verifying_key();
    assert_eq!(
        public.as_bytes(),
        hex(
            "0460FED4BA255A9D31C961EB74C6356D68C049B8923B61FA6CE669622E60F29FB6\
             7903FE1008B8BC99A41AE9E95628BC64F2F1B20C2D7E9F5177A3C294D4462299"
        )
    );
    let again = P256VerifyingKey::from_sec1_bytes(public.as_bytes()).unwrap();
    assert_eq!(again.as_bytes(), public.as_bytes());
    let mut compressed = public.as_bytes()[..33].to_vec();
    compressed[0] = 3;
    let again = P256VerifyingKey::from_sec1_bytes(&compressed).unwrap();
    assert_eq!(again.as_bytes(), public.as_bytes());
    assert!(P256VerifyingKey::from_sec1_bytes(&[4; 65]).is_none());
    assert!(P256VerifyingKey::from_sec1_bytes(&[]).is_none());

    let public = P384SigningKey::from_slice(&hex(P384_SECRET)).unwrap().verifying_key();
    assert_eq!(public.as_bytes().len(), 97);
    let again = P384VerifyingKey::from_sec1_bytes(public.as_bytes()).unwrap();
    assert_eq!(again.as_bytes(), public.as_bytes());

    let public = P521SigningKey::from_slice(&[1; 66]).unwrap().verifying_key();
    assert_eq!(public.as_bytes().len(), 133);
    let again = P521VerifyingKey::from_sec1_bytes(public.as_bytes()).unwrap();
    assert_eq!(again.as_bytes(), public.as_bytes());
}
