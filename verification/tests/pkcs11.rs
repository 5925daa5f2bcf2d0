use kryptering::algorithm::{
    AesKeySize, CipherAlgorithm, EcCurve, HashAlgorithm, KeyTransportAlgorithm, KeyWrapAlgorithm,
    MlDsaVariant, OaepConfig, SignatureAlgorithm,
};
use kryptering::digest::digest;
use kryptering::error::Error;
use kryptering::pkcs11::agreement::{Pkcs11KeyAgreement, TokenAttribute};
use kryptering::pkcs11::cipher::Pkcs11Cipher;
use kryptering::pkcs11::mechanism::{
    hash_to_mechanism_type, hash_to_mgf, key_transport_mechanism, keywrap_mechanism,
    prepare_sign_data, pss_params_for, signature_mechanism, Mechanism, MechanismType, MgfType,
    PssParams,
};
use kryptering::pkcs11::operation::{
    Pkcs11Decryptor, Pkcs11Encryptor, Pkcs11HmacSigner, Pkcs11KeyWrapper, Pkcs11Signer,
    Pkcs11Verifier,
};
use kryptering::pkcs11::provider::{InitializeReply, Pkcs11Provider, Pkcs11Session};
use kryptering::pkcs11::request::{
    CallKind, CallReply, Locking, ObjectClass, ObjectQuery, TemplateAttribute, TokenCall,
    TokenFunction, VerifyReply,
};

const KEY: u32 = 77;

fn text<T>(r: Result<T, Error>) -> String {
    match r {
        Ok(_) => panic!("an error"),
        Err(e) => e.to_string(),
    }
}

fn poisoned<T>(step: Locking<T>) -> String {
    text(step.locked(Err("poisoned lock: another task failed inside".to_string())))
}

fn locked<T>(step: Locking<T>) -> T {
    match step.locked(Ok(())) {
        Ok(next) => next,
        Err(_) => panic!("the lock was taken"),
    }
}

fn ok<T>(r: Result<T, Error>) -> T {
    match r {
        Ok(v) => v,
        Err(e) => panic!("{}", e.to_string()),
    }
}

const OFFERED: [(HashAlgorithm, MechanismType, MgfType, usize); 4] = [
    (HashAlgorithm::Sha1, MechanismType::Sha1, MgfType::Mgf1Sha1, 20),
    (HashAlgorithm::Sha256, MechanismType::Sha256, MgfType::Mgf1Sha256, 32),
    (HashAlgorithm::Sha384, MechanismType::Sha384, MgfType::Mgf1Sha384, 48),
    (HashAlgorithm::Sha512, MechanismType::Sha512, MgfType::Mgf1Sha512, 64),
];

const NOT_OFFERED: [HashAlgorithm; 7] = [
    HashAlgorithm::Sha224,
    HashAlgorithm::Sha3_224,
    HashAlgorithm::Sha3_256,
    HashAlgorithm::Sha3_384,
    HashAlgorithm::Sha3_512,
    HashAlgorithm::Md5,
    HashAlgorithm::Ripemd160,
];

#[test]
fn rsa_mechanisms_follow_the_hash() {
    for (hash, mechanism_type, mgf1, len) in OFFERED {
        match ok(signature_mechanism(&SignatureAlgorithm::RsaPkcs1v15(hash))) {
            Mechanism::HashRsaPkcs(h) => assert_eq!(h, mechanism_type),
            other => panic!("{other:?}"),
        }
        match ok(signature_mechanism(&SignatureAlgorithm::RsaPss(hash))) {
            Mechanism::HashRsaPkcsPss(h, params) => {
                assert_eq!(h, mechanism_type);
                let expected = PssParams {
                    hash_alg: mechanism_type,
                    mgf: mgf1,
                    s_len: len,
                };
                assert_eq!(params, expected);
            }
            other => panic!("{other:?}"),
        }
        assert_eq!(ok(pss_params_for(hash)), (mechanism_type, mgf1, len));
        assert_eq!(ok(hash_to_mechanism_type(hash)), mechanism_type);
        assert_eq!(ok(hash_to_mgf(hash)), mgf1);
    }
    for hash in NOT_OFFERED {
        let name = hash.debug_name();
        assert_eq!(
            text(signature_mechanism(&SignatureAlgorithm::RsaPkcs1v15(hash))),
            format!(
                "unsupported algorithm: RSA PKCS#1 v1.5 with {name} not supported via PKCS#11"
            )
        );
        assert_eq!(
            text(signature_mechanism(&SignatureAlgorithm::RsaPss(hash))),
            format!("unsupported algorithm: RSA-PSS with {name}")
        );
        assert_eq!(
            text(pss_params_for(hash)),
            format!("unsupported algorithm: RSA-PSS with {name}")
        );
        assert_eq!(
            text(hash_to_mechanism_type(hash)),
            format!("unsupported algorithm: hash {name} not supported for PKCS#11 OAEP")
        );
        assert_eq!(
            text(hash_to_mgf(hash)),
            format!("unsupported algorithm: MGF with {name} not supported")
        );
    }
}

#[test]
fn other_signature_mechanisms() {
    let ecdsa = SignatureAlgorithm::Ecdsa(EcCurve::P384, HashAlgorithm::Md5);
    assert!(matches!(ok(signature_mechanism(&ecdsa)), Mechanism::Ecdsa));
    assert!(matches!(
        ok(signature_mechanism(&SignatureAlgorithm::Ed25519)),
        Mechanism::Eddsa
    ));
    assert!(matches!(
        ok(signature_mechanism(&SignatureAlgorithm::Hmac(HashAlgorithm::Sha256))),
        Mechanism::Sha256Hmac
    ));
    assert_eq!(
        text(signature_mechanism(&SignatureAlgorithm::Hmac(HashAlgorithm::Sha1))),
        "unsupported algorithm: HMAC with Sha1 not supported via PKCS#11 \
         (only SHA-256 HMAC is currently wired up; cryptoki 0.12 exposes more)"
    );
    assert_eq!(
        text(signature_mechanism(&SignatureAlgorithm::Dsa(HashAlgorithm::Sha1))),
        "unsupported algorithm: Dsa(Sha1) not supported via PKCS#11"
    );
    assert_eq!(
        text(signature_mechanism(&SignatureAlgorithm::MlDsa(MlDsaVariant::MlDsa44))),
        "unsupported algorithm: MlDsa(MlDsa44) not supported via PKCS#11"
    );
}

#[test]
fn only_ecdsa_data_is_hashed_before_the_token() {
    let ecdsa = SignatureAlgorithm::Ecdsa(EcCurve::P256, HashAlgorithm::Sha384);
    assert_eq!(
        prepare_sign_data(&ecdsa, b"abc"),
        digest(HashAlgorithm::Sha384, b"abc")
    );
    for algorithm in [
        SignatureAlgorithm::RsaPkcs1v15(HashAlgorithm::Sha256),
        SignatureAlgorithm::Ed25519,
        SignatureAlgorithm::Hmac(HashAlgorithm::Sha256),
    ] {
        assert_eq!(prepare_sign_data(&algorithm, b"abc"), b"abc");
    }
}

fn oaep(digest: HashAlgorithm, mgf_digest: HashAlgorithm) -> KeyTransportAlgorithm {
    KeyTransportAlgorithm::RsaOaep(OaepConfig { digest, mgf_digest })
}

#[test]
fn key_transport_mechanisms() {
    let plain = KeyTransportAlgorithm::RsaPkcs1v15;
    for label in [None, Some(&b"label"[..])] {
        assert!(matches!(ok(key_transport_mechanism(&plain, label)), Mechanism::RsaPkcs));
        match ok(key_transport_mechanism(
            &oaep(HashAlgorithm::Sha256, HashAlgorithm::Sha1),
            label,
        )) {
            Mechanism::RsaPkcsOaep {
                hash_alg,
                mgf,
                source,
            } => {
                assert_eq!(hash_alg, MechanismType::Sha256);
                assert_eq!(mgf, MgfType::Mgf1Sha1);
                assert_eq!(source.as_deref(), label);
            }
            other => panic!("{other:?}"),
        }
    }
    assert_eq!(
        text(key_transport_mechanism(
            &oaep(HashAlgorithm::Sha224, HashAlgorithm::Md5),
            None
        )),
        "unsupported algorithm: hash Sha224 not supported for PKCS#11 OAEP"
    );
    assert_eq!(
        text(key_transport_mechanism(
            &oaep(HashAlgorithm::Sha1, HashAlgorithm::Md5),
            None
        )),
        "unsupported algorithm: MGF with Md5 not supported"
    );
}

#[test]
fn key_wrap_mechanisms() {
    let aes = KeyWrapAlgorithm::AesKw(AesKeySize::Aes192);
    assert!(matches!(ok(keywrap_mechanism(&aes)), Mechanism::AesKeyWrap));
    assert_eq!(
        text(keywrap_mechanism(&KeyWrapAlgorithm::TripleDesKw)),
        "unsupported algorithm: 3DES key wrap not supported via PKCS#11"
    );
}

fn check_call(call: &TokenCall<u32>, kind: CallKind, function: TokenFunction, data: &[u8]) {
    assert_eq!(call.kind, kind);
    assert_eq!(call.kind.function(), function);
    assert_eq!(call.key, KEY);
    assert_eq!(call.data, data);
}

fn check_replies(call: &TokenCall<u32>, label: &str) {
    assert_eq!(ok(call.finished(CallReply::Output(vec![1, 2]))), [1, 2]);
    assert_eq!(
        text(call.finished(CallReply::Failed("why".to_string()))),
        format!("PKCS#11 error: {label} failed: why")
    );
    assert_eq!(
        text(call.finished(CallReply::ParamsRejected("why".to_string()))),
        "PKCS#11 error: GcmParams::new failed: why"
    );
}

#[test]
fn a_signer_hands_the_token_its_data() {
    let algorithm = SignatureAlgorithm::Ecdsa(EcCurve::P256, HashAlgorithm::Sha256);
    let signer = Pkcs11Signer::new(KEY, algorithm);
    assert_eq!(signer.algorithm(), algorithm);
    assert_eq!(
        poisoned(ok(signer.sign(b"abc"))),
        "PKCS#11 error: session lock poisoned: poisoned lock: another task failed inside"
    );
    let call = locked(ok(signer.sign(b"abc")));
    assert!(matches!(call.mechanism, Mechanism::Ecdsa));
    let hash = digest(HashAlgorithm::Sha256, b"abc");
    check_call(&call, CallKind::Sign, TokenFunction::Sign, &hash);
    check_replies(&call, "C_Sign");

    let unsupported = Pkcs11Signer::new(KEY, SignatureAlgorithm::Dsa(HashAlgorithm::Sha1));
    assert_eq!(
        text(unsupported.sign(b"abc")),
        "unsupported algorithm: Dsa(Sha1) not supported via PKCS#11"
    );
}

#[test]
fn a_verifier_takes_wrong_signatures_as_an_answer() {
    let algorithm = SignatureAlgorithm::Ecdsa(EcCurve::P256, HashAlgorithm::Sha256);
    let verifier = Pkcs11Verifier::new(KEY, algorithm);
    assert_eq!(verifier.algorithm(), algorithm);
    let call = locked(ok(verifier.verify(b"abc", b"sig")));
    assert!(matches!(call.mechanism, Mechanism::Ecdsa));
    assert_eq!(call.key, KEY);
    assert_eq!(call.data, digest(HashAlgorithm::Sha256, b"abc"));
    assert_eq!(call.signature, b"sig");
    assert!(ok(call.finished(VerifyReply::Valid)));
    assert!(!ok(call.finished(VerifyReply::SignatureInvalid)));
    assert!(!ok(call.finished(VerifyReply::SignatureLenRange)));
    assert_eq!(
        text(call.finished(VerifyReply::Failed("why".to_string()))),
        "PKCS#11 error: C_Verify failed: why"
    );
}

#[test]
fn codes_go_to_the_token_unhashed() {
    let signer = Pkcs11HmacSigner::new(KEY, SignatureAlgorithm::Hmac(HashAlgorithm::Sha256));
    let call = locked(ok(signer.sign(b"abc")));
    assert!(matches!(call.mechanism, Mechanism::Sha256Hmac));
    check_call(&call, CallKind::HmacSign, TokenFunction::Sign, b"abc");
    check_replies(&call, "C_Sign (HMAC)");
    let check = locked(ok(signer.verify(b"abc", b"code")));
    assert_eq!(check.data, b"abc");
    assert_eq!(check.signature, b"code");
    assert_eq!(
        text(check.finished(VerifyReply::Failed("why".to_string()))),
        "PKCS#11 error: C_Verify (HMAC) failed: why"
    );
    assert!(ok(check.finished(VerifyReply::Valid)));
    let sha1 = Pkcs11HmacSigner::new(KEY, SignatureAlgorithm::Hmac(HashAlgorithm::Sha1));
    assert!(sha1.sign(b"abc").is_err());
    assert!(sha1.verify(b"abc", b"code").is_err());
}

#[test]
fn key_transport_carries_the_label() {
    let algorithm = oaep(HashAlgorithm::Sha256, HashAlgorithm::Sha256);
    let label = Some(b"label".to_vec());
    let encryptor = Pkcs11Encryptor::new_with_oaep_label(KEY, algorithm, label.clone());
    let decryptor = Pkcs11Decryptor::new_with_oaep_label(KEY, algorithm, label);
    let call = locked(ok(encryptor.encrypt(b"key")));
    check_call(&call, CallKind::Encrypt, TokenFunction::Encrypt, b"key");
    check_replies(&call, "C_Encrypt");
    let back = locked(ok(decryptor.decrypt(b"sealed")));
    check_call(&back, CallKind::Decrypt, TokenFunction::Decrypt, b"sealed");
    check_replies(&back, "C_Decrypt");
    for mechanism in [call.mechanism, back.mechanism] {
        match mechanism {
            Mechanism::RsaPkcsOaep { source, .. } => assert_eq!(source.unwrap(), b"label"),
            other => panic!("{other:?}"),
        }
    }
    for call in [
        locked(ok(Pkcs11Encryptor::new(KEY, algorithm).encrypt(b"key"))),
        locked(ok(Pkcs11Decryptor::new(KEY, algorithm).decrypt(b"key"))),
    ] {
        assert!(matches!(
            call.mechanism,
            Mechanism::RsaPkcsOaep { source: None, .. }
        ));
    }
    let bad = oaep(HashAlgorithm::Md5, HashAlgorithm::Sha256);
    assert!(Pkcs11Encryptor::new(KEY, bad).encrypt(b"key").is_err());
    assert!(Pkcs11Decryptor::new(KEY, bad).decrypt(b"key").is_err());
}

#[test]
fn keys_are_wrapped_by_encryption() {
    let wrapper = Pkcs11KeyWrapper::new(KEY, KeyWrapAlgorithm::AesKw(AesKeySize::Aes256));
    let call = locked(ok(wrapper.wrap(b"key")));
    assert!(matches!(call.mechanism, Mechanism::AesKeyWrap));
    check_call(&call, CallKind::KeyWrap, TokenFunction::Encrypt, b"key");
    check_replies(&call, "C_Encrypt (key wrap)");
    let call = locked(ok(wrapper.unwrap(b"wrapped")));
    check_call(&call, CallKind::KeyUnwrap, TokenFunction::Decrypt, b"wrapped");
    check_replies(&call, "C_Decrypt (key unwrap)");
    let old = Pkcs11KeyWrapper::new(KEY, KeyWrapAlgorithm::TripleDesKw);
    assert!(old.wrap(b"key").is_err());
    assert!(old.unwrap(b"key").is_err());
}

const CBC: CipherAlgorithm = CipherAlgorithm::AesCbc(AesKeySize::Aes128);
const GCM: CipherAlgorithm = CipherAlgorithm::AesGcm(AesKeySize::Aes256);

#[test]
fn cbc_frames_the_iv_that_was_drawn() {
    let cipher = Pkcs11Cipher::new(KEY, CBC);
    let draw = ok(locked(cipher.encrypt(b"plain")));
    assert_eq!(draw.len(), 16);
    let seal = ok(draw.drawn(Ok(vec![9; 16])));
    check_call(seal.call(), CallKind::CbcEncrypt, TokenFunction::Encrypt, b"plain");
    match &seal.call().mechanism {
        Mechanism::AesCbcPad { iv } => assert_eq!(iv, &[9; 16]),
        other => panic!("{other:?}"),
    }
    let sealed = ok(seal.finished(&[1; 16], CallReply::Output(vec![5; 16])));
    assert_eq!(sealed, [[9; 16], [5; 16]].concat());
    assert_eq!(
        text(seal.finished(&[1; 16], CallReply::Failed("why".to_string()))),
        "PKCS#11 error: C_Encrypt (AES-CBC) failed: why"
    );
    let draw = ok(locked(cipher.encrypt(b"plain")));
    assert_eq!(
        text(draw.drawn(Err("why".to_string()))),
        "PKCS#11 error: C_GenerateRandom failed: why"
    );

    let call = ok(locked(cipher.decrypt(&sealed)));
    check_call(&call, CallKind::CbcDecrypt, TokenFunction::Decrypt, &[5; 16]);
    match &call.mechanism {
        Mechanism::AesCbcPad { iv } => assert_eq!(iv, &[9; 16]),
        other => panic!("{other:?}"),
    }
    check_replies(&call, "C_Decrypt (AES-CBC)");
    assert_eq!(
        text(locked(cipher.decrypt(&sealed[1..]))),
        "crypto error: AES-CBC ciphertext too short (need IV + at least one block)"
    );
}

#[test]
fn gcm_frames_the_nonce_that_the_token_left() {
    let cipher = Pkcs11Cipher::new(KEY, GCM);
    let draw = ok(locked(cipher.encrypt(b"plain")));
    assert_eq!(draw.len(), 12);
    let seal = ok(draw.drawn(Ok(vec![9; 12])));
    check_call(seal.call(), CallKind::GcmEncrypt, TokenFunction::Encrypt, b"plain");
    match &seal.call().mechanism {
        Mechanism::AesGcm { iv, aad, tag_bits } => {
            assert_eq!(iv, &[9; 12]);
            assert!(aad.is_empty());
            assert_eq!(*tag_bits, 128);
        }
        other => panic!("{other:?}"),
    }
    let sealed = ok(seal.finished(&[1; 12], CallReply::Output(vec![5; 16])));
    assert_eq!(sealed[..12], [1; 12]);
    assert_eq!(sealed[12..], [5; 16]);
    assert_eq!(
        text(seal.finished(&[1; 12], CallReply::ParamsRejected("why".to_string()))),
        "PKCS#11 error: GcmParams::new failed: why"
    );

    let call = ok(locked(cipher.decrypt(&sealed)));
    check_call(&call, CallKind::GcmDecrypt, TokenFunction::Decrypt, &[5; 16]);
    match &call.mechanism {
        Mechanism::AesGcm { iv, aad, tag_bits } => {
            assert_eq!(iv, &[1; 12]);
            assert!(aad.is_empty());
            assert_eq!(*tag_bits, 128);
        }
        other => panic!("{other:?}"),
    }
    check_replies(&call, "C_Decrypt (AES-GCM)");
    assert_eq!(
        text(locked(cipher.decrypt(&sealed[1..]))),
        "crypto error: AES-GCM ciphertext too short (need nonce + tag)"
    );
}

#[test]
fn the_lock_comes_before_the_cipher() {
    let old = Pkcs11Cipher::new(KEY, CipherAlgorithm::TripleDesCbc);
    let unsupported = "unsupported algorithm: 3DES-CBC not supported via PKCS#11 cipher";
    let lock = "PKCS#11 error: session lock poisoned: poisoned lock: another task failed inside";
    assert_eq!(text(locked(old.encrypt(b"plain"))), unsupported);
    assert_eq!(text(locked(old.decrypt(&[0; 64]))), unsupported);
    assert_eq!(poisoned(old.encrypt(b"plain")), lock);
    assert_eq!(poisoned(old.decrypt(&[])), lock);
}

#[test]
fn agreement_derives_reads_and_removes() {
    let agreement = Pkcs11KeyAgreement::new(KEY, 32);
    let derive = locked(ok(agreement.agree(b"peer")));
    assert_eq!(derive.key(), KEY);
    match derive.mechanism() {
        Mechanism::Ecdh1Derive { public_data } => assert_eq!(public_data, b"peer"),
        other => panic!("{other:?}"),
    }
    let template: Vec<String> = derive.template().iter().map(|a| format!("{a:?}")).collect();
    assert_eq!(
        template,
        [
            "Class(SecretKey)",
            "GenericSecret",
            "Encrypt(false)",
            "Decrypt(false)",
            "ValueLen(32)",
            "Extractable(true)",
            "Sensitive(false)",
        ]
    );
    let read = ok(derive.derived(Ok(5)));
    assert_eq!(read.object(), 5);
    let cleanup = ok(read.read(Ok(vec![
        TokenAttribute::Other,
        TokenAttribute::Value(vec![1, 2]),
        TokenAttribute::Value(vec![3]),
    ])));
    assert_eq!(cleanup.object(), 5);
    assert_eq!(ok(cleanup.finished()), [1, 2]);
}

#[test]
fn agreement_reports_each_failure() {
    let start = || locked(ok(Pkcs11KeyAgreement::new(KEY, 32).agree(b"peer")));
    assert_eq!(
        text(start().derived(Err("why".to_string()))),
        "PKCS#11 error: C_DeriveKey (ECDH) failed: why"
    );
    assert_eq!(
        text(ok(start().derived(Ok(5))).read(Err("why".to_string()))),
        "PKCS#11 error: C_GetAttributeValue failed: why"
    );
    for attributes in [vec![], vec![TokenAttribute::Other]] {
        let cleanup = ok(ok(start().derived(Ok(5))).read(Ok(attributes)));
        assert_eq!(cleanup.object(), 5, "the key is removed all the same");
        assert_eq!(
            text(cleanup.finished()),
            "PKCS#11 error: CKA_VALUE not present on derived ECDH key"
        );
    }
    let long = Pkcs11KeyAgreement::new(KEY, usize::MAX);
    assert_eq!(
        text(long.agree_if(false, b"peer")),
        format!("PKCS#11 error: key_len {} too large for Ulong", usize::MAX)
    );
    assert!(long.agree_if(true, b"peer").is_ok());
    assert!(Pkcs11KeyAgreement::new(KEY, 0xffff_ffff).agree(b"peer").is_ok());
}

#[test]
fn the_library_may_be_initialized_before() {
    let load = || Pkcs11Provider::<u8>::new("/usr/lib/token.so");
    assert_eq!(load().library_path(), "/usr/lib/token.so");
    assert_eq!(
        text(load().loaded(Err("why".to_string()))),
        "PKCS#11 error: failed to load PKCS#11 library: why"
    );
    let initialize = || ok(load().loaded(Ok(())));
    assert_eq!(
        text(initialize().initialized(InitializeReply::Failed("why".to_string()))),
        "PKCS#11 error: C_Initialize failed: why"
    );
    assert!(initialize().initialized(InitializeReply::AlreadyInitialized).is_ok());
    let slots = || ok(initialize().initialized(InitializeReply::Done));
    assert_eq!(
        text(slots().found::<u8>(Err("why".to_string()))),
        "PKCS#11 error: C_GetSlotList failed: why"
    );
    assert_eq!(
        text(slots().found::<u8>(Ok(vec![]))),
        "PKCS#11 error: no slots with initialized token found"
    );
    assert_eq!(ok(slots().found(Ok(vec![4u8, 5]))).slot(), 4);
}

fn provider() -> Pkcs11Provider<u8> {
    let step = ok(Pkcs11Provider::<u8>::new("token.so").loaded(Ok(())));
    let step = ok(step.initialized(InitializeReply::Done));
    ok(step.found(Ok(vec![4u8])))
}

#[test]
fn sessions_are_opened_with_a_text_pin() {
    let open = ok(provider().open_session("p\u{e4}ss"));
    assert_eq!(open.slot(), 4);
    let login = ok(open.opened(Ok(())));
    assert_eq!(login.pin(), "p\u{e4}ss");
    assert!(login.logged_in(Ok(())).is_ok());

    let open = ok(provider().open_session_bytes(b"1234"));
    let login = ok(open.opened(Ok(())));
    assert_eq!(login.pin(), "1234");
    assert_eq!(
        text(login.logged_in(Err("why".to_string()))),
        "PKCS#11 error: C_Login failed: why"
    );
    let open = ok(provider().open_session_bytes(b"1234"));
    assert_eq!(
        text(open.opened(Err("why".to_string()))),
        "PKCS#11 error: C_OpenSession failed: why"
    );
    assert_eq!(
        text(provider().open_session_parsed(Err("why".to_string()))),
        "PKCS#11 error: PKCS#11 PIN must be valid UTF-8: why"
    );
    let open = ok(provider().open_session_parsed(Ok("1234")));
    assert_eq!(ok(open.opened(Ok(()))).pin(), "1234");
    assert_eq!(
        text(provider().open_session_bytes(&[b'a', 0xff])),
        "PKCS#11 error: PKCS#11 PIN must be valid UTF-8: \
         invalid utf-8 sequence of 1 bytes from index 1"
    );
}

fn class_and_label(query: Locking<ObjectQuery>) -> (ObjectClass, Vec<u8>) {
    let template = locked(query).template();
    match &template[..] {
        [TemplateAttribute::Class(class), TemplateAttribute::Label(label)] => {
            (*class, label.clone())
        }
        other => panic!("{other:?}"),
    }
}

#[test]
fn keys_are_found_by_class_and_label() {
    let cases = [
        (Pkcs11Session::find_private_key("k"), ObjectClass::PrivateKey),
        (Pkcs11Session::find_public_key("k"), ObjectClass::PublicKey),
        (Pkcs11Session::find_secret_key("k"), ObjectClass::SecretKey),
        (Pkcs11Signer::<u32>::key_query("k"), ObjectClass::PrivateKey),
        (Pkcs11Verifier::<u32>::key_query("k"), ObjectClass::PublicKey),
        (Pkcs11HmacSigner::<u32>::key_query("k"), ObjectClass::SecretKey),
        (Pkcs11Decryptor::<u32>::key_query("k"), ObjectClass::PrivateKey),
        (Pkcs11Encryptor::<u32>::key_query("k"), ObjectClass::PublicKey),
        (Pkcs11KeyWrapper::<u32>::key_query("k"), ObjectClass::SecretKey),
        (Pkcs11KeyAgreement::<u32>::key_query("k"), ObjectClass::PrivateKey),
        (Pkcs11Cipher::<u32>::key_query("k"), ObjectClass::SecretKey),
    ];
    for (query, class) in cases {
        assert_eq!(class_and_label(query), (class, b"k".to_vec()));
    }
}

#[test]
fn the_first_key_found_is_taken() {
    let query = locked(Pkcs11Session::find_private_key("my key"));
    assert_eq!(ok(query.finished(Ok(vec![3u32, 4]))), 3);
    assert_eq!(
        text(query.finished::<u32>(Ok(vec![]))),
        "PKCS#11 error: no CKO_PRIVATE_KEY object found with label \"my key\""
    );
    assert_eq!(
        text(query.finished::<u32>(Err("why".to_string()))),
        "PKCS#11 error: C_FindObjects failed: why"
    );
    let query = locked(Pkcs11Session::find_public_key("k"));
    assert_eq!(
        text(query.finished::<u32>(Ok(vec![]))),
        "PKCS#11 error: no CKO_PUBLIC_KEY object found with label \"k\""
    );
    let query = locked(Pkcs11Session::find_secret_key("k"));
    assert_eq!(
        text(query.finished::<u32>(Ok(vec![]))),
        "PKCS#11 error: no CKO_SECRET_KEY object found with label \"k\""
    );
    assert_eq!(
        format!("{}", cryptoki::object::ObjectClass::SECRET_KEY),
        ObjectClass::SecretKey.name()
    );
    assert_eq!(
        format!("{}", cryptoki::object::ObjectClass::PUBLIC_KEY),
        ObjectClass::PublicKey.name()
    );
    assert_eq!(
        format!("{}", cryptoki::object::ObjectClass::PRIVATE_KEY),
        ObjectClass::PrivateKey.name()
    );
}
