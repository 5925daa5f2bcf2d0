//! What holds of signers and verifiers together.
use crate::algorithm::{EcCurve, MlDsaVariant, SignatureAlgorithm};
use crate::bytes::{
    be_value, lemma_be_bytes_of_value, lemma_bits_fit_bytes, lemma_value_of_be_bytes,
};
use crate::error::{text_success, ErrorView};
use crate::key::{ec_public_point, SoftwareKey};
use crate::software::context::{contexts_are_told_apart, in_context};
use crate::software::dsa::{
    dsa_half_len, dsa_is_pair, dsa_raw, dsa_raw_numbers, dsa_secret_number, dsa_signing_numbers,
    dsa_verifying, DsaNumbers,
};
use crate::software::ecdsa::{ec_private, ec_public};
use crate::software::ed25519::{
    ed25519_challenge, ed25519_identity, ed25519_public, ed25519_secret, ed25519_verifying,
};
use crate::software::ml_dsa::{
    ml_dsa_accepts, ml_dsa_challenge, ml_dsa_document_key, ml_dsa_is_key_of_seed, ml_dsa_seed,
    ml_dsa_verifying_key,
};
use crate::software::rsa::{rsa_is_pair, rsa_private_numbers, rsa_public_numbers};
use crate::software::sign::{
    context_fault, sign_outcome, signing_key_fault, verify_outcome, verifying_key_fault,
};
use crate::software::slh_dsa::{
    slh_dsa_accepts, slh_dsa_document_key, slh_dsa_is_generated, slh_dsa_key, slh_dsa_root,
    slh_dsa_verifying_key,
};
use vstd::prelude::*;

verus! {

/// Whether `verifying` verifies with the public key of what `signing` signs with.
pub open spec fn is_key_pair(
    algorithm: SignatureAlgorithm,
    signing: SoftwareKey,
    verifying: SoftwareKey,
) -> bool {
    match algorithm {
        SignatureAlgorithm::RsaPkcs1v15(_) | SignatureAlgorithm::RsaPss(_) => {
            &&& signing matches SoftwareKey::Rsa { private: Some(sk), .. }
            &&& verifying matches SoftwareKey::Rsa { public, .. }
            &&& rsa_public_numbers(public) == rsa_private_numbers(sk)
        },
        SignatureAlgorithm::Ecdsa(curve, _) => {
            &&& ec_private(curve, signing) matches Some(scalar)
            &&& ec_public(curve, verifying) == Some(ec_public_point(curve, scalar))
        },
        SignatureAlgorithm::Ed25519 => {
            &&& signing matches SoftwareKey::Ed25519 { private: Some(sk), .. }
            &&& ed25519_verifying(verifying) == Some(ed25519_public(ed25519_secret(sk)))
        },
        SignatureAlgorithm::Hmac(_) => {
            &&& signing matches SoftwareKey::Hmac(a)
            &&& verifying matches SoftwareKey::Hmac(b)
            &&& a@ == b@
        },
        SignatureAlgorithm::Dsa(_) => {
            &&& signing matches SoftwareKey::Dsa { private: Some(sk), .. }
            &&& dsa_verifying(verifying) == Some(dsa_signing_numbers(sk))
        },
        SignatureAlgorithm::MlDsa(v) => {
            &&& signing matches SoftwareKey::PostQuantum { private_der: Some(private), .. }
            &&& verifying matches SoftwareKey::PostQuantum { public_der, .. }
            &&& ml_dsa_seed(v, private@) matches Ok(seed)
            &&& ml_dsa_document_key(v, public_der@) == text_success(ml_dsa_verifying_key(v, seed))
        },
        SignatureAlgorithm::SlhDsa(v) => {
            &&& signing matches SoftwareKey::PostQuantum { private_der: Some(private), .. }
            &&& verifying matches SoftwareKey::PostQuantum { public_der, .. }
            &&& slh_dsa_key(v, private@) matches Ok(key)
            &&& slh_dsa_document_key(v, public_der@) == text_success(slh_dsa_verifying_key(v, key))
        },
    }
}

/// Whether the key's own numbers fit together. The types of the other keys see to
/// that; a DSA key can be put together from any numbers, and an SLH-DSA key from
/// any bytes.
pub open spec fn is_sound_key(algorithm: SignatureAlgorithm, signing: SoftwareKey) -> bool {
    match algorithm {
        SignatureAlgorithm::Dsa(_) => signing matches SoftwareKey::Dsa { private: Some(sk), .. }
            ==> dsa_is_pair(dsa_signing_numbers(sk), dsa_secret_number(sk)),
        SignatureAlgorithm::SlhDsa(v) => signing matches SoftwareKey::PostQuantum {
            private_der: Some(private),
            ..
        } ==> slh_dsa_key(v, private@) matches Ok(key) ==> slh_dsa_is_generated(v, key),
        _ => true,
    }
}

/// Whether a signature is one that the strict rules of Ed25519 refuse although it
/// was signed: the signer's nonce came out as zero, so that the first half encodes
/// the neutral element. No other algorithm has such signatures.
pub open spec fn is_refused_by_strictness(algorithm: SignatureAlgorithm, sig: Seq<u8>) -> bool {
    algorithm is Ed25519 && sig.subrange(0, 32) == ed25519_identity()
}

/// What a signer signs, the verifier with the matching key accepts, in the same
/// context.
pub proof fn signed_data_verifies(
    algorithm: SignatureAlgorithm,
    signing: SoftwareKey,
    verifying: SoftwareKey,
    context: Seq<u8>,
    data: Seq<u8>,
    sig: Seq<u8>,
)
    requires
        is_key_pair(algorithm, signing, verifying),
        is_sound_key(algorithm, signing),
        sign_outcome(algorithm, signing, context, data, Ok(sig)),
        !is_refused_by_strictness(algorithm, sig),
    ensures
        verify_outcome(algorithm, verifying, context, data, sig)
            == core::result::Result::<bool, ErrorView>::Ok(true),
{
    if algorithm is Dsa {
        let sk = signing->Dsa_private->0;
        let numbers = dsa_signing_numbers(sk);
        let (r, s) = crate::software::dsa::dsa_signature(
            algorithm->Dsa_0,
            numbers,
            dsa_secret_number(sk),
            data,
        )->0;
        dsa_encoding_round_trips(numbers, r, s);
    }
}

/// An Ed25519 signature is answered with no for any other data, unless the hash
/// that binds the two to signature and key comes out the same.
pub proof fn ed25519_signature_is_for_its_data_only(
    signing: SoftwareKey,
    verifying: SoftwareKey,
    context: Seq<u8>,
    data: Seq<u8>,
    other: Seq<u8>,
    sig: Seq<u8>,
)
    requires
        is_key_pair(SignatureAlgorithm::Ed25519, signing, verifying),
        sign_outcome(SignatureAlgorithm::Ed25519, signing, context, data, Ok(sig)),
        ed25519_challenge(ed25519_verifying(verifying)->0, other, sig) != ed25519_challenge(
            ed25519_verifying(verifying)->0,
            data,
            sig,
        ),
    ensures
        verify_outcome(SignatureAlgorithm::Ed25519, verifying, context, other, sig)
            == core::result::Result::<bool, ErrorView>::Ok(false),
{
}

/// The encoded post-quantum verifying key in `key`.
pub open spec fn pq_verifying_key(algorithm: SignatureAlgorithm, key: SoftwareKey) -> Seq<u8> {
    match algorithm {
        SignatureAlgorithm::MlDsa(v) => ml_dsa_document_key(
            v,
            key->PostQuantum_public_der@,
        )->Ok_0,
        SignatureAlgorithm::SlhDsa(v) => slh_dsa_document_key(
            v,
            key->PostQuantum_public_der@,
        )->Ok_0,
        _ => Seq::empty(),
    }
}

/// Whether a post-quantum signature is accepted for a message.
pub open spec fn pq_accepts(
    algorithm: SignatureAlgorithm,
    key: SoftwareKey,
    message: Seq<u8>,
    sig: Seq<u8>,
) -> bool {
    match algorithm {
        SignatureAlgorithm::MlDsa(v) => ml_dsa_accepts(
            v,
            pq_verifying_key(algorithm, key),
            message,
            sig,
        ),
        SignatureAlgorithm::SlhDsa(v) => slh_dsa_accepts(
            v,
            pq_verifying_key(algorithm, key),
            message,
            sig,
        ),
        _ => false,
    }
}

/// In another context, or over other data, a post-quantum signature is held against
/// another message than the one it was made for, and is answered with yes or no, not
/// with an error: with yes exactly where it is accepted for that other message too.
pub proof fn other_context_is_another_message(
    algorithm: SignatureAlgorithm,
    signing: SoftwareKey,
    verifying: SoftwareKey,
    context: Seq<u8>,
    data: Seq<u8>,
    other_context: Seq<u8>,
    other_data: Seq<u8>,
    sig: Seq<u8>,
)
    requires
        algorithm.is_pq(),
        is_key_pair(algorithm, signing, verifying),
        is_sound_key(algorithm, signing),
        sign_outcome(algorithm, signing, context, data, Ok(sig)),
        other_context != context || other_data != data,
    ensures
        pq_accepts(algorithm, verifying, in_context(context, data), sig),
        other_context.len() <= 255 ==> in_context(other_context, other_data) != in_context(
            context,
            data,
        ),
        verify_outcome(algorithm, verifying, other_context, other_data, sig)
            == core::result::Result::<bool, ErrorView>::Ok(
            other_context.len() <= 255 && pq_accepts(
                algorithm,
                verifying,
                in_context(other_context, other_data),
                sig,
            ),
        ),
{
    if other_context.len() <= 255 {
        contexts_are_told_apart(context, data, other_context, other_data);
    }
}

/// What verification of a post-quantum signature computes from key, message and
/// signature, to compare it: the challenge of ML-DSA, the root of SLH-DSA.
pub open spec fn pq_computed(
    algorithm: SignatureAlgorithm,
    key: SoftwareKey,
    message: Seq<u8>,
    sig: Seq<u8>,
) -> Seq<u8> {
    match algorithm {
        SignatureAlgorithm::MlDsa(v) => ml_dsa_challenge(
            v,
            pq_verifying_key(algorithm, key),
            message,
            sig,
        ),
        SignatureAlgorithm::SlhDsa(v) => slh_dsa_root(
            v,
            pq_verifying_key(algorithm, key),
            message,
            sig,
        ),
        _ => Seq::empty(),
    }
}

/// A post-quantum signature verifies in the context it was made in, and in no other:
/// the contexts must match byte for byte. The one exception is that the hashes that
/// verification computes for the two contexts collide.
pub proof fn contexts_must_match(
    algorithm: SignatureAlgorithm,
    signing: SoftwareKey,
    verifying: SoftwareKey,
    context: Seq<u8>,
    other_context: Seq<u8>,
    data: Seq<u8>,
    sig: Seq<u8>,
)
    requires
        algorithm.is_pq(),
        is_key_pair(algorithm, signing, verifying),
        is_sound_key(algorithm, signing),
        sign_outcome(algorithm, signing, context, data, Ok(sig)),
        context != other_context && other_context.len() <= 255 ==> pq_computed(
            algorithm,
            verifying,
            in_context(other_context, data),
            sig,
        ) != pq_computed(algorithm, verifying, in_context(context, data), sig),
    ensures
        verify_outcome(algorithm, verifying, other_context, data, sig)
            == core::result::Result::<bool, ErrorView>::Ok(context == other_context),
{
    signed_data_verifies(algorithm, signing, verifying, context, data, sig);
}

/// A key that holds its private half verifies what it signed itself. Post-quantum
/// keys, and RSA keys that were not made from the private half, keep the two halves
/// apart, so theirs need to match.
pub proof fn own_key_is_a_pair(algorithm: SignatureAlgorithm, key: SoftwareKey)
    requires
        signing_key_fault(algorithm, key) is None,
        algorithm is Ecdsa || algorithm is Ed25519 || algorithm is Hmac || algorithm is Dsa
            || rsa_is_pair(key),
    ensures
        is_key_pair(algorithm, key, key),
{
}

/// A generated ML-DSA key verifies what it signed itself, in every context.
pub proof fn generated_key_verifies_its_signatures(
    variant: MlDsaVariant,
    seed: Seq<u8>,
    key: SoftwareKey,
    context: Seq<u8>,
    data: Seq<u8>,
    sig: Seq<u8>,
)
    requires
        seed.len() == 32,
        ml_dsa_is_key_of_seed(variant, seed, key),
        sign_outcome(SignatureAlgorithm::MlDsa(variant), key, context, data, Ok(sig)),
    ensures
        verify_outcome(SignatureAlgorithm::MlDsa(variant), key, context, data, sig)
            == core::result::Result::<bool, ErrorView>::Ok(true),
{
    signed_data_verifies(SignatureAlgorithm::MlDsa(variant), key, key, context, data, sig);
}

/// A generated ML-DSA key is fit for signing and for verifying.
pub proof fn generated_key_is_fit(variant: MlDsaVariant, seed: Seq<u8>, key: SoftwareKey)
    requires
        ml_dsa_is_key_of_seed(variant, seed, key),
    ensures
        signing_key_fault(SignatureAlgorithm::MlDsa(variant), key) is None,
        verifying_key_fault(SignatureAlgorithm::MlDsa(variant), key) is None,
{
}

/// A key that is fit for signing is fit for verifying.
pub proof fn signing_key_can_verify(algorithm: SignatureAlgorithm, key: SoftwareKey)
    requires
        signing_key_fault(algorithm, key) is None,
    ensures
        verifying_key_fault(algorithm, key) is None,
{
}

/// With a key that passed validation, signing never blames the key, except that a
/// post-quantum private key may turn out not to be readable.
pub proof fn validated_key_is_not_blamed_in_signing(
    algorithm: SignatureAlgorithm,
    key: SoftwareKey,
    context: Seq<u8>,
    data: Seq<u8>,
    e: ErrorView,
)
    requires
        signing_key_fault(algorithm, key) is None,
        !algorithm.is_pq(),
        sign_outcome(algorithm, key, context, data, Err(e)),
    ensures
        !(e is Key),
{
}

/// With a key that passed validation, verifying never blames the key, except that
/// a post-quantum public key may turn out not to be readable.
pub proof fn validated_key_is_not_blamed_in_verifying(
    algorithm: SignatureAlgorithm,
    key: SoftwareKey,
    context: Seq<u8>,
    data: Seq<u8>,
    sig: Seq<u8>,
)
    requires
        verifying_key_fault(algorithm, key) is None,
        !algorithm.is_pq(),
    ensures
        !(verify_outcome(algorithm, key, context, data, sig) matches Err(ErrorView::Key(_))),
{
}

/// The context has no effect on algorithms that are not post-quantum.
pub proof fn context_is_ignored_by_other_algorithms(
    algorithm: SignatureAlgorithm,
    key: SoftwareKey,
    context: Seq<u8>,
    other: Seq<u8>,
    data: Seq<u8>,
    sig: Seq<u8>,
    r: core::result::Result<Seq<u8>, ErrorView>,
)
    requires
        !algorithm.is_pq(),
    ensures
        sign_outcome(algorithm, key, context, data, r) == sign_outcome(
            algorithm,
            key,
            other,
            data,
            r,
        ),
        verify_outcome(algorithm, key, context, data, sig) == verify_outcome(
            algorithm,
            key,
            other,
            data,
            sig,
        ),
{
}

/// An algorithm that is not post-quantum takes no context but the empty one, and
/// a post-quantum algorithm takes any.
pub proof fn context_is_for_post_quantum_algorithms(
    algorithm: SignatureAlgorithm,
    context: Seq<u8>,
)
    ensures
        context_fault(algorithm, context) is None <==> algorithm.is_pq() || context.len() == 0,
{
}

/// A context of more than 255 bytes yields no signature.
pub proof fn long_context_yields_no_signature(
    algorithm: SignatureAlgorithm,
    key: SoftwareKey,
    context: Seq<u8>,
    data: Seq<u8>,
    r: core::result::Result<Seq<u8>, ErrorView>,
)
    requires
        algorithm.is_pq(),
        context.len() > 255,
        sign_outcome(algorithm, key, context, data, r),
    ensures
        r is Err,
{
}

/// Whether signing draws on random numbers.
pub open spec fn is_randomized(algorithm: SignatureAlgorithm) -> bool {
    match algorithm {
        SignatureAlgorithm::RsaPss(_) => true,
        SignatureAlgorithm::Ecdsa(curve, _) => curve == EcCurve::P521,
        SignatureAlgorithm::MlDsa(_) => true,
        _ => false,
    }
}

/// Two signatures of one key over the same data are the same, where signing is
/// not randomized.
pub proof fn signatures_are_repeatable(
    algorithm: SignatureAlgorithm,
    key: SoftwareKey,
    context: Seq<u8>,
    data: Seq<u8>,
    a: Seq<u8>,
    b: Seq<u8>,
)
    requires
        !is_randomized(algorithm),
        sign_outcome(algorithm, key, context, data, Ok(a)),
        sign_outcome(algorithm, key, context, data, Ok(b)),
    ensures
        a == b,
{
}

/// Only the authentication code itself verifies.
pub proof fn only_the_code_verifies(
    algorithm: SignatureAlgorithm,
    key: SoftwareKey,
    context: Seq<u8>,
    data: Seq<u8>,
    mac: Seq<u8>,
    sig: Seq<u8>,
)
    requires
        algorithm is Hmac,
        sign_outcome(algorithm, key, context, data, Ok(mac)),
    ensures
        verify_outcome(algorithm, key, context, data, sig)
            == core::result::Result::<bool, ErrorView>::Ok(sig == mac),
{
}

/// Reading a written DSA signature gives its two numbers back.
pub proof fn dsa_encoding_round_trips(key: DsaNumbers, r: nat, s: nat)
    requires
        0 < r < key.q,
        0 < s < key.q,
    ensures
        dsa_raw_numbers(dsa_half_len(key), dsa_raw(key, r, s)) == core::result::Result::<
            (nat, nat),
            ErrorView,
        >::Ok((r, s)),
{
    let n = dsa_half_len(key);
    lemma_bits_fit_bytes(key.q, n);
    lemma_value_of_be_bytes(r, n);
    lemma_value_of_be_bytes(s, n);
    let first = crate::bytes::be_bytes(r, n);
    let second = crate::bytes::be_bytes(s, n);
    let raw = dsa_raw(key, r, s);
    assert(raw.subrange(0, n as int) =~= first);
    assert(raw.subrange(n as int, 2 * n as int) =~= second);
}

/// Writing the numbers that were read from a DSA signature gives its bytes back:
/// a signature has one encoding only.
pub proof fn dsa_decoding_round_trips(key: DsaNumbers, rs: Seq<u8>, r: nat, s: nat)
    requires
        dsa_raw_numbers(dsa_half_len(key), rs) == core::result::Result::<
            (nat, nat),
            ErrorView,
        >::Ok((r, s)),
    ensures
        dsa_raw(key, r, s) == rs,
{
    let n = dsa_half_len(key) as int;
    let first = rs.subrange(0, n);
    let second = rs.subrange(n, 2 * n);
    assert(be_value(first) == r && be_value(second) == s);
    lemma_be_bytes_of_value(first);
    lemma_be_bytes_of_value(second);
    assert(first + second =~= rs);
}

} // verus!
