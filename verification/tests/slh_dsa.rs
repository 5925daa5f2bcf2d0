use kryptering::algorithm::{PqAlgorithm, SignatureAlgorithm, SlhDsaVariant};
use kryptering::key::SoftwareKey;
use kryptering::software::sign::{SoftwareSigner, SoftwareVerifier};
use kryptering::software::slh_dsa::{
    load_slh_dsa_signing_key, pq_slh_dsa_sign, pq_slh_dsa_sign_dispatch, pq_slh_dsa_verify,
    pq_slh_dsa_verify_dispatch, slh_dsa_key_is_generated, slh_dsa_public_matches,
};
use kryptering::traits::{Signer, Verifier};

const V: SlhDsaVariant = SlhDsaVariant::Sha2_128f;

fn outside_key<P: slh_dsa::ParameterSet>(n: usize) -> slh_dsa::SigningKey<P> {
    slh_dsa::SigningKey::slh_keygen_internal(&vec![1; n], &vec![2; n], &vec![3; n])
}

fn halves<P: slh_dsa::ParameterSet>(n: usize) -> (Vec<u8>, Vec<u8>) {
    let key = outside_key::<P>(n);
    let public: &slh_dsa::VerifyingKey<P> = key.as_ref();
    let der = pkcs8::EncodePublicKey::to_public_key_der(public).unwrap();
    (key.to_bytes().to_vec(), der.as_bytes().to_vec())
}

fn small() -> (Vec<u8>, Vec<u8>) {
    halves::<slh_dsa::Sha2_128f>(16)
}

fn key(variant: SlhDsaVariant, halves: (Vec<u8>, Vec<u8>)) -> SoftwareKey {
    SoftwareKey::PostQuantum {
        algorithm: PqAlgorithm::SlhDsa(variant),
        private_der: Some(halves.0),
        public_der: halves.1,
    }
}

fn round_trip(variant: SlhDsaVariant, halves: (Vec<u8>, Vec<u8>), len: usize) {
    let algorithm = SignatureAlgorithm::SlhDsa(variant);
    let signer = SoftwareSigner::new_with_pq_context(algorithm, key(variant, halves.clone()), b"one")
        .expect("signer");
    let signature = signer.sign(b"data").expect("signing");
    assert_eq!(signature.len(), len);
    let same =
        SoftwareVerifier::new_with_pq_context(algorithm, key(variant, halves.clone()), b"one")
            .expect("verifier");
    assert!(same.verify(b"data", &signature).unwrap());
    assert!(!same.verify(b"other data", &signature).unwrap());
    let other = SoftwareVerifier::new(algorithm, key(variant, halves)).expect("verifier");
    assert!(!other.verify(b"data", &signature).unwrap());
}

#[test]
fn sha2_128f_round_trips() {
    round_trip(V, small(), 17088);
}

#[test]
fn sha2_128s_round_trips() {
    let variant = SlhDsaVariant::Sha2_128s;
    round_trip(variant, halves::<slh_dsa::Sha2_128s>(16), 7856);
}

#[test]
fn sha2_192f_round_trips() {
    let variant = SlhDsaVariant::Sha2_192f;
    round_trip(variant, halves::<slh_dsa::Sha2_192f>(24), 35664);
}

#[test]
fn sha2_192s_round_trips() {
    let variant = SlhDsaVariant::Sha2_192s;
    round_trip(variant, halves::<slh_dsa::Sha2_192s>(24), 16224);
}

#[test]
fn sha2_256f_round_trips() {
    let variant = SlhDsaVariant::Sha2_256f;
    round_trip(variant, halves::<slh_dsa::Sha2_256f>(32), 49856);
}

#[test]
fn sha2_256s_round_trips() {
    let variant = SlhDsaVariant::Sha2_256s;
    round_trip(variant, halves::<slh_dsa::Sha2_256s>(32), 29792);
}

#[test]
fn slh_dsa_signatures_match_the_outside_ones() {
    let outside = outside_key::<slh_dsa::Sha2_128f>(16)
        .try_sign_with_context(b"data", b"ctx", None)
        .unwrap();
    let signature = pq_slh_dsa_sign(V, &small().0, b"data", b"ctx").unwrap();
    assert_eq!(signature, outside.to_bytes().to_vec());
    assert_eq!(signature, pq_slh_dsa_sign(V, &small().0, b"data", b"ctx").unwrap());
}

#[test]
fn slh_dsa_private_keys_are_documents_or_bytes() {
    let document = pkcs8::EncodePrivateKey::to_pkcs8_der(&outside_key::<slh_dsa::Sha2_128f>(16))
        .unwrap()
        .as_bytes()
        .to_vec();
    let bytes = small().0;
    assert_eq!(bytes.len(), 64);
    assert_eq!(load_slh_dsa_signing_key(V, &document).unwrap(), bytes);
    assert_eq!(load_slh_dsa_signing_key(V, &bytes).unwrap(), bytes);
    for bad in [&bytes[1..], b"", &document[1..]] {
        assert_eq!(
            load_slh_dsa_signing_key(V, bad).unwrap_err().to_string(),
            "key error: failed to parse SLH-DSA private key: signature error"
        );
    }
}

#[test]
fn long_slh_dsa_contexts_are_refused() {
    let context = [0; 256];
    assert_eq!(
        pq_slh_dsa_sign(V, &small().0, b"data", &context).unwrap_err().to_string(),
        "crypto error: SLH-DSA sign failed: signature error"
    );
    let signature = pq_slh_dsa_sign(V, &small().0, b"data", &context[..255]).unwrap();
    assert!(pq_slh_dsa_verify(V, &small().1, b"data", &signature, &context[..255]).unwrap());
    assert!(!pq_slh_dsa_verify(V, &small().1, b"data", &signature, &context).unwrap());
}

#[test]
fn malformed_slh_dsa_inputs_are_told_apart() {
    let error = pq_slh_dsa_verify(V, b"no document", b"", &[0; 17088], b"").unwrap_err();
    assert!(error
        .to_string()
        .starts_with("key error: failed to parse SLH-DSA public key: "));
    assert_eq!(
        pq_slh_dsa_verify(V, &small().1, b"", &[0; 17087], b"").unwrap_err().to_string(),
        "crypto error: invalid SLH-DSA signature: signature error"
    );
    let other = SoftwareKey::Hmac(vec![1]);
    assert_eq!(
        pq_slh_dsa_sign_dispatch(&other, V, b"", b"").unwrap_err().to_string(),
        "key error: SLH-DSA-SHA2-128f private key required for signing"
    );
    assert_eq!(
        pq_slh_dsa_verify_dispatch(&other, V, b"", b"", b"").unwrap_err().to_string(),
        "key error: SLH-DSA-SHA2-128f key required for verification"
    );
}

#[test]
fn generated_keys_are_told_from_other_bytes() {
    let (private, _) = small();
    let loaded = load_slh_dsa_signing_key(V, &private).expect("a key");
    assert!(slh_dsa_key_is_generated(V, &loaded));
    assert!(!slh_dsa_key_is_generated(V, &[0; 64]));
    let mut other = private.clone();
    other[63] ^= 1;
    assert!(!slh_dsa_key_is_generated(V, &other));
    let mut other = private;
    other[0] ^= 1;
    assert!(!slh_dsa_key_is_generated(V, &other));
    let (private, public) = small();
    assert!(slh_dsa_public_matches(V, &private, &public));
    assert!(!slh_dsa_public_matches(V, &[0; 64], &public));
    assert!(!slh_dsa_public_matches(V, &private, &public[1..]));
    let (long, _) = halves::<slh_dsa::Sha2_192f>(24);
    assert!(slh_dsa_key_is_generated(SlhDsaVariant::Sha2_192f, &long));
}

#[test]
fn messages_are_framed_by_their_context() {
    let key = outside_key::<slh_dsa::Sha2_128f>(16);
    let framed = key.slh_sign_internal(&[&[0, 3], b"one", b"data"], None);
    let (private, public) = small();
    let signature = pq_slh_dsa_sign(V, &private, b"data", b"one").expect("signing");
    assert_eq!(signature, framed.to_bytes().to_vec());
    assert!(!pq_slh_dsa_verify(V, &public, b"edata", &signature, b"on").unwrap());
}
