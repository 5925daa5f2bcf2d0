use kryptering::algorithm::{
    EcCurve, HashAlgorithm, MlDsaVariant, PqAlgorithm, SignatureAlgorithm, SlhDsaVariant,
};
use kryptering::error::{crypto_reply, key_reply, Error};
use kryptering::text::{decimal, join2, join3};

const HASHES: [HashAlgorithm; 11] = [
    HashAlgorithm::Sha1,
    HashAlgorithm::Sha224,
    HashAlgorithm::Sha256,
    HashAlgorithm::Sha384,
    HashAlgorithm::Sha512,
    HashAlgorithm::Sha3_224,
    HashAlgorithm::Sha3_256,
    HashAlgorithm::Sha3_384,
    HashAlgorithm::Sha3_512,
    HashAlgorithm::Md5,
    HashAlgorithm::Ripemd160,
];

const CURVES: [EcCurve; 3] = [EcCurve::P256, EcCurve::P384, EcCurve::P521];

const ML: [MlDsaVariant; 3] = [
    MlDsaVariant::MlDsa44,
    MlDsaVariant::MlDsa65,
    MlDsaVariant::MlDsa87,
];

const SLH: [SlhDsaVariant; 6] = [
    SlhDsaVariant::Sha2_128f,
    SlhDsaVariant::Sha2_128s,
    SlhDsaVariant::Sha2_192f,
    SlhDsaVariant::Sha2_192s,
    SlhDsaVariant::Sha2_256f,
    SlhDsaVariant::Sha2_256s,
];

#[test]
fn quoted_names_are_the_debug_names() {
    let mut algorithms = vec![SignatureAlgorithm::Ed25519];
    for hash in HASHES {
        assert_eq!(hash.debug_name(), format!("{hash:?}"));
        algorithms.push(SignatureAlgorithm::RsaPkcs1v15(hash));
        algorithms.push(SignatureAlgorithm::RsaPss(hash));
        algorithms.push(SignatureAlgorithm::Hmac(hash));
        algorithms.push(SignatureAlgorithm::Dsa(hash));
        for curve in CURVES {
            assert_eq!(curve.debug_name(), format!("{curve:?}"));
            algorithms.push(SignatureAlgorithm::Ecdsa(curve, hash));
        }
    }
    for variant in ML {
        assert_eq!(variant.debug_name(), format!("{variant:?}"));
        algorithms.push(SignatureAlgorithm::MlDsa(variant));
    }
    for variant in SLH {
        assert_eq!(variant.debug_name(), format!("{variant:?}"));
        algorithms.push(SignatureAlgorithm::SlhDsa(variant));
    }
    for algorithm in algorithms {
        assert_eq!(algorithm.debug_name(), format!("{algorithm:?}"));
    }
}

#[test]
fn parameter_sets_have_their_standard_names() {
    let names: Vec<&str> = ML.iter().map(|v| PqAlgorithm::MlDsa(*v).name()).collect();
    assert_eq!(names, ["ML-DSA-44", "ML-DSA-65", "ML-DSA-87"]);
    let names: Vec<&str> = SLH.iter().map(|v| PqAlgorithm::SlhDsa(*v).name()).collect();
    assert_eq!(
        names,
        [
            "SLH-DSA-SHA2-128f",
            "SLH-DSA-SHA2-128s",
            "SLH-DSA-SHA2-192f",
            "SLH-DSA-SHA2-192s",
            "SLH-DSA-SHA2-256f",
            "SLH-DSA-SHA2-256s",
        ]
    );
}

#[test]
fn errors_show_their_kind() {
    let m = || "m".to_string();
    assert_eq!(Error::Key(m()).to_string(), "key error: m");
    assert_eq!(Error::Crypto(m()).to_string(), "crypto error: m");
    assert_eq!(
        Error::UnsupportedAlgorithm(m()).to_string(),
        "unsupported algorithm: m"
    );
    assert_eq!(Error::Pkcs11(m()).to_string(), "PKCS#11 error: m");
}

#[test]
fn texts_are_put_together() {
    assert_eq!(decimal(0), "0");
    assert_eq!(decimal(9), "9");
    assert_eq!(decimal(10), "10");
    assert_eq!(decimal(1234567890), "1234567890");
    assert_eq!(decimal(usize::MAX), format!("{}", usize::MAX));
    assert_eq!(join2("a", "b"), "ab");
    assert_eq!(join3("a", "", "c"), "ac");
}

#[test]
fn replies_are_labelled() {
    assert_eq!(crypto_reply("label: ", Ok(vec![1])).unwrap(), [1]);
    assert_eq!(
        crypto_reply("label: ", Err("why".to_string())).unwrap_err().to_string(),
        "crypto error: label: why"
    );
    assert_eq!(key_reply("label: ", Ok(vec![1])).unwrap(), [1]);
    assert_eq!(
        key_reply("label: ", Err("why".to_string())).unwrap_err().to_string(),
        "key error: label: why"
    );
}
