//! What the token operations ask of a token and make of its replies, said of their
//! inputs, requests and results.
use crate::algorithm::{
    HashAlgorithm, KeyTransportAlgorithm, KeyWrapAlgorithm, OaepConfig, SignatureAlgorithm,
};
use crate::digest::hash_of;
use crate::error::{Error, Result};
use crate::pkcs11::mechanism::{
    hash_to_mechanism_type, hash_to_mgf, key_transport_mechanism, keywrap_mechanism,
    oaep_mechanism, prepare_sign_data, pss_params_for, signature_mechanism, Mechanism,
    MechanismType, MgfType,
};
use crate::pkcs11::operation::{
    Pkcs11Decryptor, Pkcs11Encryptor, Pkcs11HmacSigner, Pkcs11KeyWrapper, Pkcs11Signer,
    Pkcs11Verifier,
};
use crate::pkcs11::request::{
    CallKind, CallReply, Locking, TokenCall, TokenFunction, VerifyCall, VerifyReply,
};
use vstd::prelude::*;

verus! {

/// The session is locked before anything is asked of it: then the step that was started
/// follows, and a poisoned lock ends the operation.
pub proof fn the_lock_comes_first<T>(
    next: T,
    locking: Locking<T>,
    lock: core::result::Result<(), String>,
    r: Result<T>,
)
    requires
        call_ensures(Locking::<T>::new, (next,), locking),
        call_ensures(Locking::<T>::locked, (locking, lock), r),
    ensures
        locking.next_step() == next,
        lock is Ok ==> r == Ok::<T, Error>(next),
        lock matches Err(e) ==> {
            &&& r matches Err(Error::Pkcs11(m))
            &&& m@ == "session lock poisoned: "@ + e@
        },
{
}

/// A signature algorithm goes to the mechanism of its own name and of its own hash.
/// PSS generates its mask with the hash that it signs and salts it as long as that hash.
/// What no mechanism is wired up for is not supported.
pub proof fn mechanisms_sign_as_the_algorithm_names(algo: &SignatureAlgorithm, r: Result<Mechanism>)
    requires
        call_ensures(signature_mechanism, (algo,), r),
    ensures
        r is Err ==> r->Err_0 is UnsupportedAlgorithm,
        match *algo {
            SignatureAlgorithm::RsaPkcs1v15(hash) => if hash is Sha1 || hash is Sha256
                || hash is Sha384 || hash is Sha512 {
                r matches Ok(Mechanism::HashRsaPkcs(t)) && {
                    &&& hash is Sha1 <==> t is Sha1
                    &&& hash is Sha256 <==> t is Sha256
                    &&& hash is Sha384 <==> t is Sha384
                    &&& hash is Sha512 <==> t is Sha512
                }
            } else {
                r is Err
            },
            SignatureAlgorithm::RsaPss(hash) => if hash is Sha1 || hash is Sha256
                || hash is Sha384 || hash is Sha512 {
                r matches Ok(Mechanism::HashRsaPkcsPss(t, params)) && {
                    &&& hash is Sha1 <==> t is Sha1 && params.mgf is Mgf1Sha1 && params.s_len == 20
                    &&& hash is Sha256 <==> t is Sha256 && params.mgf is Mgf1Sha256 && params.s_len
                        == 32
                    &&& hash is Sha384 <==> t is Sha384 && params.mgf is Mgf1Sha384 && params.s_len
                        == 48
                    &&& hash is Sha512 <==> t is Sha512 && params.mgf is Mgf1Sha512 && params.s_len
                        == 64
                    &&& params.hash_alg == t
                }
            } else {
                r is Err
            },
            SignatureAlgorithm::Ecdsa(_, _) => r matches Ok(Mechanism::Ecdsa),
            SignatureAlgorithm::Ed25519 => r matches Ok(Mechanism::Eddsa),
            SignatureAlgorithm::Hmac(hash) => if hash is Sha256 {
                r matches Ok(Mechanism::Sha256Hmac)
            } else {
                r is Err
            },
            SignatureAlgorithm::Dsa(_) => r is Err,
            SignatureAlgorithm::MlDsa(_) => r is Err,
            SignatureAlgorithm::SlhDsa(_) => r is Err,
        },
{
}

/// What is said of a signature algorithm without a mechanism names it.
pub proof fn refused_algorithms_are_named(algo: &SignatureAlgorithm, r: Result<Mechanism>)
    requires
        call_ensures(signature_mechanism, (algo,), r),
        r is Err,
    ensures
        r matches Err(Error::UnsupportedAlgorithm(m)) && match *algo {
            SignatureAlgorithm::RsaPkcs1v15(hash) => m@ == "RSA PKCS#1 v1.5 with "@
                + hash.debug_text() + " not supported via PKCS#11"@,
            SignatureAlgorithm::RsaPss(hash) => m@ == "RSA-PSS with "@ + hash.debug_text(),
            SignatureAlgorithm::Hmac(hash) => m@ == "HMAC with "@ + hash.debug_text()
                + " not supported via PKCS#11 (only SHA-256 HMAC is currently wired up; cryptoki 0.12 exposes more)"@,
            _ => m@ == algo.debug_text() + " not supported via PKCS#11"@,
        },
{
}

/// The parameters of PSS all go by one hash, which is the one asked for.
pub proof fn pss_parameters_go_by_one_hash(
    hash: HashAlgorithm,
    r: Result<(MechanismType, MgfType, usize)>,
)
    requires
        call_ensures(pss_params_for, (hash,), r),
    ensures
        r is Ok <==> hash is Sha1 || hash is Sha256 || hash is Sha384 || hash is Sha512,
        r matches Ok((t, mgf, salt)) ==> {
            &&& hash is Sha1 <==> t is Sha1 && mgf is Mgf1Sha1 && salt == 20
            &&& hash is Sha256 <==> t is Sha256 && mgf is Mgf1Sha256 && salt == 32
            &&& hash is Sha384 <==> t is Sha384 && mgf is Mgf1Sha384 && salt == 48
            &&& hash is Sha512 <==> t is Sha512 && mgf is Mgf1Sha512 && salt == 64
        },
        r is Err ==> r->Err_0 is UnsupportedAlgorithm,
{
}

/// The token's names of a hash, and of the mask generation with it, are those of that
/// hash.
pub proof fn hashes_keep_their_names(
    h: HashAlgorithm,
    named: Result<MechanismType>,
    masked: Result<MgfType>,
)
    requires
        call_ensures(hash_to_mechanism_type, (h,), named),
        call_ensures(hash_to_mgf, (h,), masked),
    ensures
        named is Ok <==> h is Sha1 || h is Sha256 || h is Sha384 || h is Sha512,
        masked is Ok <==> named is Ok,
        named matches Ok(t) ==> {
            &&& h is Sha1 <==> t is Sha1
            &&& h is Sha256 <==> t is Sha256
            &&& h is Sha384 <==> t is Sha384
            &&& h is Sha512 <==> t is Sha512
        },
        masked matches Ok(mgf) ==> {
            &&& h is Sha1 <==> mgf is Mgf1Sha1
            &&& h is Sha256 <==> mgf is Mgf1Sha256
            &&& h is Sha384 <==> mgf is Mgf1Sha384
            &&& h is Sha512 <==> mgf is Mgf1Sha512
        },
        named is Err ==> {
            &&& named matches Err(Error::UnsupportedAlgorithm(m))
            &&& m@ == "hash "@ + h.debug_text() + " not supported for PKCS#11 OAEP"@
        },
        masked is Err ==> {
            &&& masked matches Err(Error::UnsupportedAlgorithm(m))
            &&& m@ == "MGF with "@ + h.debug_text() + " not supported"@
        },
{
}

/// The data goes to the token as it is, but for ECDSA: there it goes as its hash under
/// the hash that the algorithm names.
pub proof fn only_ecdsa_data_is_hashed_first(algo: &SignatureAlgorithm, data: &[u8], r: Vec<u8>)
    requires
        call_ensures(prepare_sign_data, (algo, data), r),
    ensures
        match *algo {
            SignatureAlgorithm::Ecdsa(_, hash) => r@ == hash_of(hash, data@),
            _ => r@ == data@,
        },
{
}

/// A token signer has the token sign with its key, with the algorithm's mechanism and
/// over the algorithm's data, or refuses as the algorithm is refused.
pub proof fn token_signers_ask_for_a_signature<H: Copy>(
    key: H,
    algorithm: SignatureAlgorithm,
    data: &[u8],
    signer: Pkcs11Signer<H>,
    named: SignatureAlgorithm,
    mechanism: Result<Mechanism>,
    prepared: Vec<u8>,
    started: Result<Locking<TokenCall<H>>>,
)
    requires
        call_ensures(Pkcs11Signer::<H>::new, (key, algorithm), signer),
        call_ensures(Pkcs11Signer::<H>::algorithm, (&signer,), named),
        call_ensures(signature_mechanism, (&algorithm,), mechanism),
        call_ensures(prepare_sign_data, (&algorithm, data), prepared),
        call_ensures(Pkcs11Signer::<H>::sign, (&signer, data), started),
    ensures
        named == algorithm,
        started is Ok <==> mechanism is Ok,
        started is Err ==> started->Err_0@ == mechanism->Err_0@,
        started matches Ok(l) ==> {
            let call = l.next_step();
            &&& call.kind is Sign
            &&& call.key == key
            &&& call.mechanism@ == mechanism->Ok_0@
            &&& call.data@ == prepared@
            &&& algorithm matches SignatureAlgorithm::Ecdsa(_, hash) ==> call.data@ == hash_of(
                hash,
                data@,
            )
            &&& !(algorithm is Ecdsa) ==> call.data@ == data@
        },
{
}

/// A token verifier has the token verify with its key, with the algorithm's mechanism
/// and over the algorithm's data, the signature it is given, or refuses as the algorithm
/// is refused.
pub proof fn token_verifiers_ask_for_a_verification<H: Copy>(
    key: H,
    algorithm: SignatureAlgorithm,
    data: &[u8],
    signature: &[u8],
    verifier: Pkcs11Verifier<H>,
    named: SignatureAlgorithm,
    mechanism: Result<Mechanism>,
    prepared: Vec<u8>,
    started: Result<Locking<VerifyCall<H>>>,
)
    requires
        call_ensures(Pkcs11Verifier::<H>::new, (key, algorithm), verifier),
        call_ensures(Pkcs11Verifier::<H>::algorithm, (&verifier,), named),
        call_ensures(signature_mechanism, (&algorithm,), mechanism),
        call_ensures(prepare_sign_data, (&algorithm, data), prepared),
        call_ensures(Pkcs11Verifier::<H>::verify, (&verifier, data, signature), started),
    ensures
        named == algorithm,
        started is Ok <==> mechanism is Ok,
        started is Err ==> started->Err_0@ == mechanism->Err_0@,
        started matches Ok(l) ==> {
            let call = l.next_step();
            &&& !call.hmac
            &&& call.key == key
            &&& call.mechanism@ == mechanism->Ok_0@
            &&& call.data@ == prepared@
            &&& call.signature@ == signature@
            &&& algorithm matches SignatureAlgorithm::Ecdsa(_, hash) ==> call.data@ == hash_of(
                hash,
                data@,
            )
            &&& !(algorithm is Ecdsa) ==> call.data@ == data@
        },
{
}

/// Authentication codes on a token are made and verified over the data itself, with the
/// secret key and the algorithm's mechanism, and the code that is verified is the one
/// given.
pub proof fn token_codes_are_over_the_data<H: Copy>(
    key: H,
    algorithm: SignatureAlgorithm,
    data: &[u8],
    code: &[u8],
    signer: Pkcs11HmacSigner<H>,
    named: SignatureAlgorithm,
    mechanism: Result<Mechanism>,
    making: Result<Locking<TokenCall<H>>>,
    verifying: Result<Locking<VerifyCall<H>>>,
)
    requires
        call_ensures(Pkcs11HmacSigner::<H>::new, (key, algorithm), signer),
        call_ensures(Pkcs11HmacSigner::<H>::algorithm, (&signer,), named),
        call_ensures(signature_mechanism, (&algorithm,), mechanism),
        call_ensures(Pkcs11HmacSigner::<H>::sign, (&signer, data), making),
        call_ensures(Pkcs11HmacSigner::<H>::verify, (&signer, data, code), verifying),
    ensures
        named == algorithm,
        making is Ok <==> mechanism is Ok,
        verifying is Ok <==> mechanism is Ok,
        making is Err ==> making->Err_0@ == mechanism->Err_0@,
        verifying is Err ==> verifying->Err_0@ == mechanism->Err_0@,
        making matches Ok(l) ==> {
            let call = l.next_step();
            &&& call.kind is HmacSign
            &&& call.key == key
            &&& call.mechanism@ == mechanism->Ok_0@
            &&& call.data@ == data@
        },
        verifying matches Ok(l) ==> {
            let call = l.next_step();
            &&& call.hmac
            &&& call.key == key
            &&& call.mechanism@ == mechanism->Ok_0@
            &&& call.data@ == data@
            &&& call.signature@ == code@
        },
{
}

/// The bytes that the token gives are the result. Anything else is a failure that keeps
/// the token's text behind what failed.
pub proof fn token_output_is_the_result<H>(call: &TokenCall<H>, reply: CallReply, r: Result<Vec<u8>>)
    requires
        call_ensures(TokenCall::<H>::finished, (call, reply), r),
    ensures
        match reply {
            CallReply::Output(bytes) => r matches Ok(out) && out@ == bytes@,
            CallReply::ParamsRejected(e) => r matches Err(Error::Pkcs11(m)) && m@
                == "GcmParams::new failed: "@ + e@,
            CallReply::Failed(e) => r matches Err(Error::Pkcs11(m)) && m@ == (match call.kind {
                CallKind::Sign => "C_Sign failed: "@,
                CallKind::HmacSign => "C_Sign (HMAC) failed: "@,
                CallKind::Encrypt => "C_Encrypt failed: "@,
                CallKind::Decrypt => "C_Decrypt failed: "@,
                CallKind::KeyWrap => "C_Encrypt (key wrap) failed: "@,
                CallKind::KeyUnwrap => "C_Decrypt (key unwrap) failed: "@,
                CallKind::CbcEncrypt => "C_Encrypt (AES-CBC) failed: "@,
                CallKind::CbcDecrypt => "C_Decrypt (AES-CBC) failed: "@,
                CallKind::GcmEncrypt => "C_Encrypt (AES-GCM) failed: "@,
                CallKind::GcmDecrypt => "C_Decrypt (AES-GCM) failed: "@,
            }) + e@,
        },
{
}

/// Signing calls go to the token's signing function, encrypting and wrapping ones to its
/// encryption, decrypting and unwrapping ones to its decryption.
pub proof fn calls_go_to_their_function(kind: &CallKind, r: TokenFunction)
    requires
        call_ensures(CallKind::function, (kind,), r),
    ensures
        r is Sign <==> *kind is Sign || *kind is HmacSign,
        r is Encrypt <==> *kind is Encrypt || *kind is KeyWrap || *kind is CbcEncrypt
            || *kind is GcmEncrypt,
        r is Decrypt <==> *kind is Decrypt || *kind is KeyUnwrap || *kind is CbcDecrypt
            || *kind is GcmDecrypt,
{
}

/// A verification on a token, of a signature as of an authentication code, is answered
/// with yes exactly where the token found the signature valid, and with no exactly where
/// it found it wrong or of a wrong length. Every other reply is a failure.
pub proof fn token_verdicts_are_the_answer<H>(
    call: &VerifyCall<H>,
    reply: VerifyReply,
    r: Result<bool>,
)
    requires
        call_ensures(VerifyCall::<H>::finished, (call, reply), r),
    ensures
        r == Ok::<bool, Error>(true) <==> reply is Valid,
        r == Ok::<bool, Error>(false) <==> reply is SignatureInvalid
            || reply is SignatureLenRange,
        reply matches VerifyReply::Failed(e) ==> {
            &&& r matches Err(Error::Pkcs11(m))
            &&& call.hmac ==> m@ == "C_Verify (HMAC) failed: "@ + e@
            &&& !call.hmac ==> m@ == "C_Verify failed: "@ + e@
        },
{
}

/// Keyed or not, verifications agree on what a reply means: where a token gives two of them
/// one reply, short of a failure, both give one answer.
pub proof fn verdicts_do_not_depend_on_the_call<H>(
    call: &VerifyCall<H>,
    other: &VerifyCall<H>,
    reply: VerifyReply,
    r: Result<bool>,
    s: Result<bool>,
)
    requires
        call_ensures(VerifyCall::<H>::finished, (call, reply), r),
        call_ensures(VerifyCall::<H>::finished, (other, reply), s),
    ensures
        r is Ok <==> s is Ok,
        r is Ok ==> r->Ok_0 == s->Ok_0,
{
}

/// RSA-OAEP goes to the token with the label's hash, the mask's hash and the label as
/// they were set; where a hash is not offered, the label's is complained of first.
pub proof fn oaep_keeps_hashes_and_label(
    cfg: &OaepConfig,
    label: Option<&[u8]>,
    named: Result<MechanismType>,
    masked: Result<MgfType>,
    r: Result<Mechanism>,
)
    requires
        call_ensures(hash_to_mechanism_type, (cfg.digest,), named),
        call_ensures(hash_to_mgf, (cfg.mgf_digest,), masked),
        call_ensures(oaep_mechanism, (cfg, label), r),
    ensures
        r is Ok <==> named is Ok && masked is Ok,
        named is Err ==> r->Err_0@ == named->Err_0@,
        named is Ok && masked is Err ==> r->Err_0@ == masked->Err_0@,
        r matches Ok(m) ==> {
            &&& m matches Mechanism::RsaPkcsOaep { hash_alg, mgf, source }
            &&& hash_alg == named->Ok_0
            &&& mgf == masked->Ok_0
            &&& label is None <==> source is None
            &&& label matches Some(bytes) ==> source->0@ == bytes@
        },
{
}

/// Key transport goes to the token as plain PKCS#1 v1.5, whatever the label, or as
/// RSA-OAEP with its hashes and the label.
pub proof fn transport_goes_by_the_algorithm(
    algo: &KeyTransportAlgorithm,
    label: Option<&[u8]>,
    r: Result<Mechanism>,
    oaep: Result<Mechanism>,
)
    requires
        call_ensures(key_transport_mechanism, (algo, label), r),
        *algo matches KeyTransportAlgorithm::RsaOaep(cfg) ==> call_ensures(
            oaep_mechanism,
            (&cfg, label),
            oaep,
        ),
    ensures
        *algo is RsaPkcs1v15 ==> r matches Ok(Mechanism::RsaPkcs),
        *algo is RsaOaep ==> (r is Ok <==> oaep is Ok),
        *algo is RsaOaep && r is Ok ==> r->Ok_0@ == oaep->Ok_0@,
        *algo is RsaOaep && r is Err ==> r->Err_0@ == oaep->Err_0@,
{
}

/// A token encryptor and a token decryptor with one label have the token work with their
/// key on the data itself, the one encrypting and the other decrypting, and by the same
/// mechanism: so what the one made the other takes.
pub proof fn transport_works_both_ways<H: Copy>(
    public_key: H,
    private_key: H,
    algorithm: KeyTransportAlgorithm,
    label: Option<Vec<u8>>,
    encryptor: Pkcs11Encryptor<H>,
    decryptor: Pkcs11Decryptor<H>,
    plaintext: &[u8],
    ciphertext: &[u8],
    encrypting: Result<Locking<TokenCall<H>>>,
    decrypting: Result<Locking<TokenCall<H>>>,
)
    requires
        call_ensures(
            Pkcs11Encryptor::<H>::new_with_oaep_label,
            (public_key, algorithm, label),
            encryptor,
        ),
        call_ensures(
            Pkcs11Decryptor::<H>::new_with_oaep_label,
            (private_key, algorithm, label),
            decryptor,
        ),
        call_ensures(Pkcs11Encryptor::<H>::encrypt, (&encryptor, plaintext), encrypting),
        call_ensures(Pkcs11Decryptor::<H>::decrypt, (&decryptor, ciphertext), decrypting),
    ensures
        encrypting is Ok <==> decrypting is Ok,
        encrypting is Err ==> {
            &&& encrypting->Err_0 is UnsupportedAlgorithm
            &&& encrypting->Err_0@ == decrypting->Err_0@
        },
        algorithm is RsaPkcs1v15 ==> encrypting is Ok,
        algorithm matches KeyTransportAlgorithm::RsaOaep(cfg) ==> (encrypting is Ok <==> {
            &&& cfg.digest is Sha1 || cfg.digest is Sha256 || cfg.digest is Sha384
                || cfg.digest is Sha512
            &&& cfg.mgf_digest is Sha1 || cfg.mgf_digest is Sha256 || cfg.mgf_digest is Sha384
                || cfg.mgf_digest is Sha512
        }),
        encrypting matches Ok(l) ==> {
            let there = l.next_step();
            let back = decrypting->Ok_0.next_step();
            &&& there.kind is Encrypt
            &&& back.kind is Decrypt
            &&& there.key == public_key
            &&& back.key == private_key
            &&& there.data@ == plaintext@
            &&& back.data@ == ciphertext@
            &&& there.mechanism@ == back.mechanism@
            &&& algorithm is RsaPkcs1v15 ==> there.mechanism is RsaPkcs
            &&& algorithm matches KeyTransportAlgorithm::RsaOaep(cfg) ==> {
                &&& there.mechanism matches Mechanism::RsaPkcsOaep { hash_alg, mgf, source }
                &&& cfg.digest is Sha1 <==> hash_alg is Sha1
                &&& cfg.digest is Sha256 <==> hash_alg is Sha256
                &&& cfg.digest is Sha384 <==> hash_alg is Sha384
                &&& cfg.digest is Sha512 <==> hash_alg is Sha512
                &&& cfg.mgf_digest is Sha1 <==> mgf is Mgf1Sha1
                &&& cfg.mgf_digest is Sha256 <==> mgf is Mgf1Sha256
                &&& cfg.mgf_digest is Sha384 <==> mgf is Mgf1Sha384
                &&& cfg.mgf_digest is Sha512 <==> mgf is Mgf1Sha512
                &&& label is None <==> source is None
                &&& label matches Some(bytes) ==> source->0@ == bytes@
            }
        },
{
}

/// Without a label an encryptor, or a decryptor, asks for what it asks for with none set.
pub proof fn no_label_is_no_label<H: Copy>(
    key: H,
    algorithm: KeyTransportAlgorithm,
    encryptor: Pkcs11Encryptor<H>,
    decryptor: Pkcs11Decryptor<H>,
    data: &[u8],
    encrypting: Result<Locking<TokenCall<H>>>,
    decrypting: Result<Locking<TokenCall<H>>>,
)
    requires
        call_ensures(Pkcs11Encryptor::<H>::new, (key, algorithm), encryptor),
        call_ensures(Pkcs11Decryptor::<H>::new, (key, algorithm), decryptor),
        call_ensures(Pkcs11Encryptor::<H>::encrypt, (&encryptor, data), encrypting),
        call_ensures(Pkcs11Decryptor::<H>::decrypt, (&decryptor, data), decrypting),
    ensures
        encrypting is Ok <==> decrypting is Ok,
        encrypting matches Ok(l) ==> {
            let there = l.next_step();
            let back = decrypting->Ok_0.next_step();
            &&& there.key == key
            &&& back.key == key
            &&& there.kind is Encrypt
            &&& back.kind is Decrypt
            &&& there.data@ == data@
            &&& back.data@ == data@
            &&& there.mechanism@ == back.mechanism@
            &&& algorithm is RsaPkcs1v15 ==> there.mechanism is RsaPkcs
            &&& algorithm is RsaOaep ==> (there.mechanism matches Mechanism::RsaPkcsOaep {
                source,
                ..
            } && source is None)
        },
{
}

/// Every size of AES wraps keys, and no other cipher does. Wrapping encrypts the key's
/// bytes under the wrapping key, unwrapping decrypts them, both by AES key wrap.
pub proof fn keys_are_wrapped_by_aes<H: Copy>(
    key: H,
    algorithm: KeyWrapAlgorithm,
    wrapper: Pkcs11KeyWrapper<H>,
    key_data: &[u8],
    wrapped: &[u8],
    mechanism: Result<Mechanism>,
    wrapping: Result<Locking<TokenCall<H>>>,
    unwrapping: Result<Locking<TokenCall<H>>>,
)
    requires
        call_ensures(keywrap_mechanism, (&algorithm,), mechanism),
        call_ensures(Pkcs11KeyWrapper::<H>::new, (key, algorithm), wrapper),
        call_ensures(Pkcs11KeyWrapper::<H>::wrap, (&wrapper, key_data), wrapping),
        call_ensures(Pkcs11KeyWrapper::<H>::unwrap, (&wrapper, wrapped), unwrapping),
    ensures
        algorithm is AesKw ==> {
            &&& mechanism matches Ok(Mechanism::AesKeyWrap)
            &&& wrapping matches Ok(a)
            &&& a.next_step().kind is KeyWrap
            &&& a.next_step().mechanism is AesKeyWrap
            &&& a.next_step().key == key
            &&& a.next_step().data@ == key_data@
            &&& unwrapping matches Ok(b)
            &&& b.next_step().kind is KeyUnwrap
            &&& b.next_step().mechanism is AesKeyWrap
            &&& b.next_step().key == key
            &&& b.next_step().data@ == wrapped@
        },
        !(algorithm is AesKw) ==> {
            &&& mechanism matches Err(Error::UnsupportedAlgorithm(m))
            &&& m@ == "3DES key wrap not supported via PKCS#11"@
            &&& wrapping is Err
            &&& wrapping->Err_0@ == mechanism->Err_0@
            &&& unwrapping is Err
            &&& unwrapping->Err_0@ == mechanism->Err_0@
        },
{
}

} // verus!
