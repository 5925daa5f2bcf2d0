use kryptering::algorithm::{MlDsaVariant, PqAlgorithm};
use kryptering::key::SoftwareKey;
use kryptering::secret::{SecretBytes, SecretText};

#[test]
fn secrets_are_kept_until_they_are_wiped() {
    let mut bytes = SecretBytes::new(vec![1, 2, 3]);
    assert_eq!(bytes.as_slice(), [1, 2, 3]);
    bytes.wipe();
    assert_eq!(bytes.as_slice(), []);
    let mut text = SecretText::new("1234".to_string());
    assert_eq!(text.as_str(), "1234");
    text.wipe();
    assert_eq!(text.as_str(), "");
}

#[test]
fn keys_wipe_their_secrets_and_keep_the_rest() {
    let mut key = SoftwareKey::Hmac(vec![7; 20]);
    key.wipe();
    assert!(matches!(&key, SoftwareKey::Hmac(secret) if secret.is_empty()));

    let mut key = SoftwareKey::PostQuantum {
        algorithm: PqAlgorithm::MlDsa(MlDsaVariant::MlDsa44),
        private_der: Some(vec![7; 32]),
        public_der: vec![8; 5],
    };
    key.wipe();
    let SoftwareKey::PostQuantum {
        algorithm,
        private_der,
        public_der,
    } = &key
    else {
        panic!("a post-quantum key");
    };
    assert_eq!(*algorithm, PqAlgorithm::MlDsa(MlDsaVariant::MlDsa44));
    assert_eq!(*private_der, Some(vec![]));
    assert_eq!(*public_der, vec![8; 5]);
}
