//! What holds of the token operations together.
use crate::algorithm::{
    CipherAlgorithm, HashAlgorithm, KeyTransportAlgorithm, OaepConfig, SignatureAlgorithm,
};
use crate::error::ErrorView;
use crate::pkcs11::cipher::{decrypt_call, mode_outcome, AesMode};
use crate::pkcs11::mechanism::{
    key_transport_outcome, mgf1, signature_mechanism_outcome, token_data, MechanismView,
};
use crate::pkcs11::operation::{call_with, verify_with};
use crate::pkcs11::request::{CallKind, CallView};
use vstd::prelude::*;

verus! {

/// Decrypting takes off the prefix that encrypting put on: the token gets the same
/// mechanism, with the same IV or nonce, and the ciphertext that it gave.
pub proof fn decrypting_undoes_the_framing_of_encrypting<H>(
    algorithm: CipherAlgorithm,
    mode: AesMode,
    key: H,
    prefix: Seq<u8>,
    ciphertext: Seq<u8>,
)
    requires
        mode_outcome(algorithm) == core::result::Result::<AesMode, ErrorView>::Ok(mode),
        prefix.len() == mode.prefix_len(),
        ciphertext.len() >= mode.min_body_len(),
    ensures
        decrypt_call(algorithm, key, prefix + ciphertext) == core::result::Result::<
            CallView<H>,
            ErrorView,
        >::Ok(
            CallView {
                kind: mode.decrypt_kind(),
                mechanism: mode.mechanism_view(prefix),
                key,
                data: ciphertext,
            },
        ),
{
    let framed = prefix + ciphertext;
    let n = mode.prefix_len() as int;
    assert(framed.subrange(0, n) =~= prefix);
    assert(framed.subrange(n, framed.len() as int) =~= ciphertext);
}

/// What is decrypted is all of the data: the IV or nonce that the token gets and
/// the ciphertext that it gets make up the input again.
pub proof fn decrypting_drops_no_bytes<H>(
    algorithm: CipherAlgorithm,
    key: H,
    data: Seq<u8>,
    call: CallView<H>,
)
    requires
        decrypt_call(algorithm, key, data) == core::result::Result::<CallView<H>, ErrorView>::Ok(
            call,
        ),
    ensures
        match call.mechanism {
            MechanismView::AesCbcPad { iv } => iv.len() == 16 && iv + call.data == data,
            MechanismView::AesGcm { iv, aad, tag_bits } => {
                &&& iv.len() == 12
                &&& iv + call.data == data
                &&& aad.len() == 0
                &&& tag_bits == 128
            },
            _ => false,
        },
{
    let n = mode_outcome(algorithm)->Ok_0.prefix_len() as int;
    assert(data.subrange(0, n) + data.subrange(n, data.len() as int) =~= data);
}

/// For one algorithm the signer and the verifier hand the token the same mechanism
/// and the same data, and the one is refused where the other is.
pub proof fn signer_and_verifier_agree<H>(
    algorithm: SignatureAlgorithm,
    private_key: H,
    public_key: H,
    data: Seq<u8>,
    signature: Seq<u8>,
)
    ensures
        match call_with(
            CallKind::Sign,
            signature_mechanism_outcome(algorithm),
            private_key,
            token_data(algorithm, data),
        ) {
            Ok(call) => {
                &&& verify_with(
                    false,
                    signature_mechanism_outcome(algorithm),
                    public_key,
                    token_data(algorithm, data),
                    signature,
                ) matches Ok(check)
                &&& check.mechanism == call.mechanism
                &&& check.data == call.data
            },
            Err(e) => verify_with(
                false,
                signature_mechanism_outcome(algorithm),
                public_key,
                token_data(algorithm, data),
                signature,
            ) == core::result::Result::<crate::pkcs11::request::VerifyView<H>, ErrorView>::Err(e),
        },
{
}

/// The data is hashed before it goes to the token exactly where the mechanism is
/// the raw ECDSA one.
pub proof fn hashing_goes_with_raw_ecdsa(
    algorithm: SignatureAlgorithm,
    data: Seq<u8>,
    mechanism: MechanismView,
)
    requires
        signature_mechanism_outcome(algorithm) == core::result::Result::<
            MechanismView,
            ErrorView,
        >::Ok(mechanism),
    ensures
        mechanism is Ecdsa <==> algorithm is Ecdsa,
        !(mechanism is Ecdsa) ==> token_data(algorithm, data) == data,
        mechanism is Ecdsa ==> token_data(algorithm, data) == crate::digest::hash_of(
            algorithm->Ecdsa_1,
            data,
        ),
{
}

/// In RSA-PSS the mask generation function uses the hash that is signed, and the
/// salt is as long as that hash.
pub proof fn pss_parameters_are_consistent(hash: HashAlgorithm, mechanism: MechanismView)
    requires
        signature_mechanism_outcome(SignatureAlgorithm::RsaPss(hash)) == core::result::Result::<
            MechanismView,
            ErrorView,
        >::Ok(mechanism),
    ensures
        mechanism matches MechanismView::HashRsaPkcsPss(h, params) && params.hash_alg == h
            && params.mgf == mgf1(h) && params.s_len == hash.output_len(),
{
}

/// Whether the token backend offers an algorithm.
pub open spec fn is_offered(algorithm: SignatureAlgorithm) -> bool {
    match algorithm {
        SignatureAlgorithm::RsaPkcs1v15(h) | SignatureAlgorithm::RsaPss(h) => h
            == HashAlgorithm::Sha1 || h == HashAlgorithm::Sha256 || h == HashAlgorithm::Sha384 || h
            == HashAlgorithm::Sha512,
        SignatureAlgorithm::Ecdsa(_, _) => true,
        SignatureAlgorithm::Ed25519 => true,
        SignatureAlgorithm::Hmac(h) => h == HashAlgorithm::Sha256,
        _ => false,
    }
}

/// A mechanism exists for exactly the algorithms on offer; any other is answered
/// as not supported.
pub proof fn mechanisms_exist_for_offered_algorithms(algorithm: SignatureAlgorithm)
    ensures
        signature_mechanism_outcome(algorithm) is Ok <==> is_offered(algorithm),
        !is_offered(algorithm) ==> signature_mechanism_outcome(algorithm)->Err_0
            is UnsupportedAlgorithm,
{
}

/// RSA PKCS#1 v1.5 key transport has no label: whatever is set has no effect.
pub proof fn pkcs1v15_transport_ignores_the_label(
    label: Option<Seq<u8>>,
    other: Option<Seq<u8>>,
)
    ensures
        key_transport_outcome(KeyTransportAlgorithm::RsaPkcs1v15, label) == key_transport_outcome(
            KeyTransportAlgorithm::RsaPkcs1v15,
            other,
        ),
{
}

/// RSA-OAEP key transport carries the label to the token, and whether it is
/// offered does not depend on the label.
pub proof fn oaep_transport_carries_the_label(
    cfg: OaepConfig,
    label: Option<Seq<u8>>,
    other: Option<Seq<u8>>,
)
    ensures
        key_transport_outcome(KeyTransportAlgorithm::RsaOaep(cfg), label) matches Ok(m)
            ==> m matches MechanismView::RsaPkcsOaep { source, .. } && source == label,
        key_transport_outcome(KeyTransportAlgorithm::RsaOaep(cfg), label) is Ok
            <==> key_transport_outcome(KeyTransportAlgorithm::RsaOaep(cfg), other) is Ok,
{
}

} // verus!
