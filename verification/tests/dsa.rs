use kryptering::algorithm::{HashAlgorithm, SignatureAlgorithm};
use kryptering::key::SoftwareKey;
use kryptering::software::dsa::{
    dsa_checked_sign, dsa_sig_to_raw, dsa_sign, dsa_verify, raw_to_dsa_sig,
};
use kryptering::software::sign::{SoftwareSigner, SoftwareVerifier};
use kryptering::traits::{Signer, Verifier};

fn hex(text: &str) -> Vec<u8> {
    (0..text.len() / 2)
        .map(|i| u8::from_str_radix(&text[2 * i..2 * i + 2], 16).unwrap())
        .collect()
}

fn number(text: &str) -> dsa::BigUint {
    dsa::BigUint::from_bytes_be(&hex(text))
}

fn signing_key() -> dsa::SigningKey {
    let p = number(
        "86F5CA03DCFEB225063FF830A0C769B9DD9D6153AD91D7CE27F787C43278B447\
         E6533B86B18BED6E8A48B784A14C252C5BE0DBF60B86D6385BD2F12FB763ED88\
         73ABFD3F5BA2E0A8C0A59082EAC056935E529DAF7C610467899C77ADEDFC846C\
         881870B7B19B2B58F9BE0521A17002E3BDD6B86685EE90B3D9A1B02B782B1779",
    );
    let q = number("996F967F6C8E388D9E28D01E205FBA957A5698B1");
    let g = number(
        "07B0F92546150B62514BB771E2A0C0CE387F03BDA6C56B505209FF25FD3C133D\
         89BBCD97E904E09114D9A7DEFDEADFC9078EA544D2E401AEECC40BB9FBBF78FD\
         87995A10A1C27CB7789B594BA7EFB5C4326A9FE59A070E136DB77175464ADCA4\
         17BE5DCE2F40D10A46A3A3943F26AB7FD9C0398FF8C76EE0A56826A8A88F1DBD",
    );
    let x = number("411602CB19A6CCC34494D79D98EF1E7ED5AF25F7");
    let y = number(
        "5DF5E01DED31D0297E274E1691C192FE5868FEF9E19A84776454B100CF16F653\
         92195A38B90523E2542EE61871C0440CB87C322FC4B4D2EC5E1E7EC766E1BE8D\
         4CE935437DC11C3C8FD426338933EBFE739CB3465F4D3668C5E473508253B1E6\
         82F65CBDC4FAE93C2EA212390E54905A86E2223170B44EAA7DA5DD9FFCFB7F3B",
    );
    let components = dsa::Components::from_components(p, q, g).unwrap();
    let verifying = dsa::VerifyingKey::from_components(components, y).unwrap();
    dsa::SigningKey::from_components(verifying, x).unwrap()
}

fn full_key() -> SoftwareKey {
    let private = signing_key();
    let public = private.verifying_key().clone();
    SoftwareKey::Dsa {
        private: Some(private),
        public,
    }
}

fn public_only() -> SoftwareKey {
    SoftwareKey::Dsa {
        private: None,
        public: signing_key().verifying_key().clone(),
    }
}

/// A key over the subgroup of order 11 modulo 23: its `q` has four bits.
fn tiny_key() -> SoftwareKey {
    let components =
        dsa::Components::from_components(23u32.into(), 11u32.into(), 4u32.into()).unwrap();
    let public = dsa::VerifyingKey::from_components(components, 18u32.into()).unwrap();
    let private = dsa::SigningKey::from_components(public.clone(), 3u32.into()).unwrap();
    SoftwareKey::Dsa {
        private: Some(private),
        public,
    }
}

#[test]
fn dsa_signatures_have_the_known_values() {
    assert_eq!(
        dsa_sign(&full_key(), HashAlgorithm::Sha1, b"sample").unwrap(),
        hex(
            "2E1A0C2562B2912CAAF89186FB0F42001585DA55\
             29EFB6B0AFF2D7A68EB70CA313022253B9A88DF5"
        )
    );
    assert_eq!(
        dsa_sign(&full_key(), HashAlgorithm::Sha256, b"sample").unwrap(),
        hex(
            "81F2F5850BE5BC123C43F71A3033E9384611C545\
             4CDD914B65EB6C66A8AAAD27299BEE6B035F5E89"
        )
    );
}

#[test]
fn dsa_round_trips_with_both_hashes() {
    for hash in [HashAlgorithm::Sha1, HashAlgorithm::Sha256] {
        let algorithm = SignatureAlgorithm::Dsa(hash);
        let signer = SoftwareSigner::new(algorithm, full_key()).unwrap();
        let signature = signer.sign(b"data").unwrap();
        assert_eq!(signature.len(), 40);
        assert_eq!(signer.checked_sign(b"data").unwrap().unwrap(), signature);
        for key in [full_key(), public_only()] {
            let verifier = SoftwareVerifier::new(algorithm, key).unwrap();
            assert!(verifier.verify(b"data", &signature).unwrap());
            assert!(!verifier.verify(b"other data", &signature).unwrap());
        }
    }
}

#[test]
fn dsa_encoding_is_of_fixed_width() {
    assert_eq!(dsa_sig_to_raw(3, &[5], &[1, 2]), [0, 0, 5, 0, 1, 2]);
    assert_eq!(dsa_sig_to_raw(2, &[5, 6], &[]), [5, 6, 0, 0]);
    assert_eq!(
        raw_to_dsa_sig(3, &[0, 0, 5, 0, 1, 2]).unwrap(),
        (vec![0, 0, 5], vec![0, 1, 2])
    );
}

#[test]
fn malformed_dsa_signatures_are_refused() {
    let hash = HashAlgorithm::Sha1;
    assert_eq!(
        dsa_verify(&public_only(), hash, b"", &[1; 39]).unwrap_err().to_string(),
        "crypto error: DSA signature must be 40 bytes (2 * q_len=20), got 39"
    );
    assert_eq!(
        raw_to_dsa_sig(20, &[]).unwrap_err().to_string(),
        "crypto error: DSA signature must be 40 bytes (2 * q_len=20), got 0"
    );
    let mut zero_r = [1; 40];
    zero_r[..20].fill(0);
    let mut zero_s = [1; 40];
    zero_s[20..].fill(0);
    for sig in [zero_r, zero_s] {
        assert_eq!(
            dsa_verify(&public_only(), hash, b"", &sig).unwrap_err().to_string(),
            "crypto error: invalid DSA signature: signature error"
        );
    }
    assert!(!dsa_verify(&public_only(), hash, b"", &[0xff; 40]).unwrap());
}

#[test]
fn dsa_errors_are_told_apart() {
    let other = SoftwareKey::Hmac(vec![1]);
    assert_eq!(
        dsa_sign(&other, HashAlgorithm::Sha1, b"").unwrap_err().to_string(),
        "key error: DSA private key required"
    );
    assert_eq!(
        dsa_sign(&public_only(), HashAlgorithm::Sha1, b"").unwrap_err().to_string(),
        "key error: DSA private key required"
    );
    assert_eq!(
        dsa_verify(&other, HashAlgorithm::Sha1, b"", b"").unwrap_err().to_string(),
        "key error: DSA key required"
    );
    assert_eq!(
        dsa_sign(&full_key(), HashAlgorithm::Sha512, b"").unwrap_err().to_string(),
        "unsupported algorithm: DSA with Sha512"
    );
    // The signature is looked at before the hash.
    assert_eq!(
        dsa_verify(&full_key(), HashAlgorithm::Sha512, b"", &[1; 40]).unwrap_err().to_string(),
        "unsupported algorithm: DSA with Sha512"
    );
    assert_eq!(
        dsa_verify(&full_key(), HashAlgorithm::Sha512, b"", &[]).unwrap_err().to_string(),
        "crypto error: DSA signature must be 40 bytes (2 * q_len=20), got 0"
    );
}

#[test]
fn checked_signing_tells_a_group_that_is_too_small() {
    assert!(dsa_checked_sign(&tiny_key(), HashAlgorithm::Sha1, b"").is_none());
    let signer =
        SoftwareSigner::new(SignatureAlgorithm::Dsa(HashAlgorithm::Sha256), tiny_key()).unwrap();
    assert!(signer.checked_sign(b"").is_none());
    // A hash that is not offered is told first.
    assert!(dsa_checked_sign(&tiny_key(), HashAlgorithm::Md5, b"").unwrap().is_err());
}
