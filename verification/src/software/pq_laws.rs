//! What post-quantum keys, signers and verifiers do, said of the documents, the
//! context, the data and the result.
use crate::algorithm::{MlDsaVariant, PqAlgorithm, SignatureAlgorithm, SlhDsaVariant};
use crate::error::{text_outcome, text_success, Error, Result};
use crate::key::SoftwareKey;
use crate::software::ml_dsa::{
    generate_ml_dsa, load_ml_dsa_signing_key, ml_dsa_challenge, ml_dsa_decodes,
    ml_dsa_document_key, ml_dsa_key_from_draw, ml_dsa_key_from_parts, ml_dsa_key_from_seed,
    ml_dsa_pkcs8_seed, ml_dsa_public_document, ml_dsa_seed_from, ml_dsa_verdict,
    ml_dsa_verifying_key, seed_from_buffer,
};
use crate::software::sign::{SoftwareSigner, SoftwareVerifier};
use crate::software::slh_dsa::{
    load_slh_dsa_signing_key, slh_dsa_document_key, slh_dsa_generated, slh_dsa_key_is_generated,
    slh_dsa_pkcs8_key, slh_dsa_public_matches, slh_dsa_root, slh_dsa_signature,
};
use crate::text::decimal_text;
use crate::traits::{Signer, Verifier};
use vstd::prelude::*;

verus! {

/// An ML-DSA private key is the seed in a PKCS#8 document where the bytes are one, in
/// every parameter set; else 32 bytes are the seed themselves, and no other bytes are
/// a key. So few bytes are never a document.
pub proof fn ml_dsa_keys_are_documents_or_seeds(
    variant: MlDsaVariant,
    private_der: &[u8],
    r: Result<Vec<u8>>,
)
    requires
        call_ensures(load_ml_dsa_signing_key, (variant, private_der), r),
    ensures
        ml_dsa_pkcs8_seed(variant, private_der@) matches Some(seed) ==> {
            &&& r matches Ok(loaded)
            &&& loaded@ == seed
        },
        private_der@.len() == 32 ==> (r matches Ok(loaded) && loaded@ == private_der@),
        private_der@.len() < 32 ==> r is Err,
        ml_dsa_pkcs8_seed(variant, private_der@) is None && private_der@.len() != 32 ==> {
            &&& r matches Err(Error::Key(m))
            &&& m@
                == "failed to parse ML-DSA private key: expected PKCS#8 DER or 32-byte seed, got "@
                + decimal_text(private_der@.len()) + " bytes"@
        },
        r matches Ok(loaded) ==> loaded@.len() == 32,
{
}

/// What was read from a document is preferred to the bytes themselves.
pub proof fn a_document_is_preferred(
    parsed: Option<Vec<u8>>,
    private_der: &[u8],
    r: Result<Vec<u8>>,
)
    requires
        call_ensures(ml_dsa_seed_from, (parsed, private_der), r),
    ensures
        parsed matches Some(seed) ==> (r matches Ok(loaded) && loaded@ == seed@),
        parsed is None && private_der@.len() == 32 ==> (r matches Ok(loaded) && loaded@
            == private_der@),
        parsed is None && private_der@.len() != 32 ==> r is Err && r->Err_0 is Key,
{
}

/// ML-DSA signs with the seed that the private key is, whether it stands in a PKCS#8
/// document or bare: no key is blamed, and a signature has the parameter set's length
/// and starts with the challenge that the seed's verifying key computes for the
/// message. The message is a zero byte, the context's length, the context and the data;
/// a context of more than 255 bytes is refused.
pub proof fn ml_dsa_signs_the_data_in_its_context(
    signer: &SoftwareSigner,
    data: &[u8],
    r: Result<Vec<u8>>,
    variant: MlDsaVariant,
    private: Seq<u8>,
    seed: Seq<u8>,
)
    requires
        call_ensures(<SoftwareSigner as Signer>::sign, (signer, data), r) || call_ensures(
            SoftwareSigner::checked_sign,
            (signer, data),
            Some(r),
        ),
        signer.spec_algorithm() == SignatureAlgorithm::MlDsa(variant),
        signer.spec_key() matches SoftwareKey::PostQuantum { private_der: Some(p), .. } && p@
            == private,
        ml_dsa_pkcs8_seed(variant, private) == Some(seed) || (private.len() == 32 && seed
            == private),
    ensures
        r is Err ==> {
            &&& r matches Err(Error::Crypto(m))
            &&& m@ == "ML-DSA sign failed: "@ + "signature error"@
        },
        signer.spec_context().len() > 255 ==> r is Err,
        r matches Ok(sig) ==> {
            let message = seq![0u8, signer.spec_context().len() as u8] + signer.spec_context()
                + data@;
            let challenge = ml_dsa_challenge(
                variant,
                ml_dsa_verifying_key(variant, seed),
                message,
                sig@,
            );
            &&& ml_dsa_decodes(variant, sig@)
            &&& match variant {
                MlDsaVariant::MlDsa44 => sig@.len() == 2420 && challenge == sig@.take(32),
                MlDsaVariant::MlDsa65 => sig@.len() == 3309 && challenge == sig@.take(48),
                MlDsaVariant::MlDsa87 => sig@.len() == 4627 && challenge == sig@.take(64),
            }
        },
{
    if r is Ok {
        let sig = r->Ok_0@;
        assert(sig.take(32) =~= sig.subrange(0, 32));
        assert(sig.take(48) =~= sig.subrange(0, 48));
        assert(sig.take(64) =~= sig.subrange(0, 64));
    }
}

/// A private key that is neither a document nor 32 bytes is blamed, with its length.
pub proof fn ml_dsa_blames_unreadable_keys(
    signer: &SoftwareSigner,
    data: &[u8],
    r: Result<Vec<u8>>,
    variant: MlDsaVariant,
    private: Seq<u8>,
)
    requires
        call_ensures(<SoftwareSigner as Signer>::sign, (signer, data), r) || call_ensures(
            SoftwareSigner::checked_sign,
            (signer, data),
            Some(r),
        ),
        signer.spec_algorithm() == SignatureAlgorithm::MlDsa(variant),
        signer.spec_key() matches SoftwareKey::PostQuantum { private_der: Some(p), .. } && p@
            == private,
        private.len() != 32,
        ml_dsa_pkcs8_seed(variant, private) is None || private.len() < 32,
    ensures
        r matches Err(Error::Key(m)) && m@
            == "failed to parse ML-DSA private key: expected PKCS#8 DER or 32-byte seed, got "@
            + decimal_text(private.len()) + " bytes"@,
{
}

/// ML-DSA verification answers whether the signature starts with the challenge that the
/// public document's key computes for the message of context and data, and answers no
/// for a context of more than 255 bytes. What does not have the parameter set's length,
/// or does not decode, is no signature; a public key that is no document is blamed.
pub proof fn ml_dsa_verifies_the_data_in_its_context(
    verifier: &SoftwareVerifier,
    data: &[u8],
    sig: &[u8],
    r: Result<bool>,
    variant: MlDsaVariant,
    public: Seq<u8>,
)
    requires
        call_ensures(<SoftwareVerifier as Verifier>::verify, (verifier, data, sig), r),
        verifier.spec_algorithm() == SignatureAlgorithm::MlDsa(variant),
        verifier.spec_key() matches SoftwareKey::PostQuantum { public_der, .. } && public_der@
            == public,
    ensures
        match ml_dsa_document_key(variant, public) {
            Err(text) => r matches Err(Error::Key(m)) && m@
                == "failed to parse ML-DSA public key: "@ + text,
            Ok(vk) => {
                let context = verifier.spec_context();
                let message = seq![0u8, context.len() as u8] + context + data@;
                let challenge = ml_dsa_challenge(variant, vk, message, sig@);
                let (len, part) = match variant {
                    MlDsaVariant::MlDsa44 => (2420nat, 32int),
                    MlDsaVariant::MlDsa65 => (3309nat, 48int),
                    MlDsaVariant::MlDsa87 => (4627nat, 64int),
                };
                if sig@.len() != len {
                    r matches Err(Error::Crypto(m)) && m@ == "invalid ML-DSA signature length"@
                } else if !ml_dsa_decodes(variant, sig@) {
                    r matches Err(Error::Crypto(m)) && m@ == "failed to decode ML-DSA signature"@
                } else {
                    r == Ok::<bool, Error>(context.len() <= 255 && challenge == sig@.take(part))
                }
            },
        },
{
    if sig@.len() >= 64 {
        assert(sig@.take(32) =~= sig@.subrange(0, 32));
        assert(sig@.take(48) =~= sig@.subrange(0, 48));
        assert(sig@.take(64) =~= sig@.subrange(0, 64));
    }
}

/// The verdict is the outside check's where there is something to check.
pub proof fn verdicts_need_a_signature(
    right_len: bool,
    decoded: bool,
    accepted: bool,
    r: Result<bool>,
)
    requires
        call_ensures(ml_dsa_verdict, (right_len, decoded, accepted), r),
    ensures
        right_len && decoded ==> r == Ok::<bool, Error>(accepted),
        !right_len || !decoded ==> r is Err && r->Err_0 is Crypto,
{
}

/// A generated key is of the variant that was asked for. Its private half is a seed of
/// 32 bytes, and its public half a document that is read as that seed's verifying key.
pub proof fn generated_keys_have_matching_halves(variant: MlDsaVariant, r: Result<SoftwareKey>)
    requires
        call_ensures(generate_ml_dsa, (variant,), r),
    ensures
        r is Err ==> r->Err_0 is Crypto,
        r matches Ok(key) ==> {
            &&& key matches SoftwareKey::PostQuantum { algorithm, private_der: Some(p), public_der }
            &&& algorithm == PqAlgorithm::MlDsa(variant)
            &&& p@.len() == 32
            &&& ml_dsa_document_key(variant, public_der@) == text_success(
                ml_dsa_verifying_key(variant, p@),
            )
            &&& public_der@.len() > 0
        },
{
}

/// The key of a drawn seed holds that seed; a failed draw, or a public key that cannot
/// be encoded, is told from it.
pub proof fn drawn_seeds_become_keys(
    variant: MlDsaVariant,
    drawn: core::result::Result<Vec<u8>, String>,
    r: Result<SoftwareKey>,
)
    requires
        call_ensures(ml_dsa_key_from_draw, (variant, drawn), r),
    ensures
        drawn matches Err(e) ==> {
            &&& r matches Err(Error::Crypto(m))
            &&& m@ == "OS entropy draw failed: "@ + e@
        },
        drawn matches Ok(seed) ==> match ml_dsa_public_document(variant, seed@) {
            Ok(document) => {
                &&& r matches Ok(key)
                &&& key matches SoftwareKey::PostQuantum {
                    algorithm,
                    private_der: Some(p),
                    public_der,
                }
                &&& algorithm == PqAlgorithm::MlDsa(variant)
                &&& p@ == seed@
                &&& public_der@ == document
            },
            Err(text) => {
                &&& r matches Err(Error::Crypto(m))
                &&& m@ == "ML-DSA SPKI encode: "@ + text
            },
        },
{
}

/// A generated key makes a signer and a verifier, and what the one signs the other
/// accepts in the same context.
pub proof fn generated_keys_work(
    variant: MlDsaVariant,
    key: SoftwareKey,
    context: &[u8],
    signer: Result<SoftwareSigner>,
    verifier: Result<SoftwareVerifier>,
    data: &[u8],
    sig: Vec<u8>,
    bytes: &[u8],
    r: Result<bool>,
)
    requires
        call_ensures(generate_ml_dsa, (variant,), Ok(key)),
        call_ensures(
            SoftwareSigner::new_with_pq_context,
            (SignatureAlgorithm::MlDsa(variant), key, context),
            signer,
        ),
        call_ensures(
            SoftwareVerifier::new_with_pq_context,
            (SignatureAlgorithm::MlDsa(variant), key, context),
            verifier,
        ),
        call_ensures(<SoftwareSigner as Signer>::sign, (&signer->Ok_0, data), Ok(sig)),
        bytes@ == sig@,
        call_ensures(<SoftwareVerifier as Verifier>::verify, (&verifier->Ok_0, data, bytes), r),
    ensures
        signer is Ok,
        verifier is Ok,
        r == Ok::<bool, Error>(true),
{
}

/// An SLH-DSA private key is the key in a PKCS#8 document where the bytes are one, in
/// every parameter set; else four times the hash length of bytes are the key themselves,
/// and no other bytes are a key. So few bytes are never a document.
pub proof fn slh_dsa_keys_are_documents_or_bytes(
    variant: SlhDsaVariant,
    private_der: &[u8],
    r: Result<Vec<u8>>,
    len: nat,
)
    requires
        call_ensures(load_slh_dsa_signing_key, (variant, private_der), r),
        len == (match variant {
            SlhDsaVariant::Sha2_128f | SlhDsaVariant::Sha2_128s => 64nat,
            SlhDsaVariant::Sha2_192f | SlhDsaVariant::Sha2_192s => 96,
            SlhDsaVariant::Sha2_256f | SlhDsaVariant::Sha2_256s => 128,
        }),
    ensures
        slh_dsa_pkcs8_key(variant, private_der@) matches Some(key) ==> {
            &&& r matches Ok(loaded)
            &&& loaded@ == key
        },
        private_der@.len() == len ==> (r matches Ok(loaded) && loaded@ == private_der@),
        private_der@.len() < len ==> r is Err,
        slh_dsa_pkcs8_key(variant, private_der@) is None && private_der@.len() != len ==> {
            &&& r matches Err(Error::Key(m))
            &&& m@ == "failed to parse SLH-DSA private key: "@ + "signature error"@
        },
        r matches Ok(loaded) ==> loaded@.len() == len,
{
}

/// SLH-DSA signs with the key that the private key is, whether it stands in a PKCS#8
/// document or bare: the signature follows from key and message and has the parameter
/// set's length. The message is a zero byte, the context's length, the context and the
/// data; a context of more than 255 bytes is refused, and nothing else is. Where key
/// generation made the key, its public half computes its own root, the last quarter of
/// the key, from message and signature.
pub proof fn slh_dsa_signs_the_data_in_its_context(
    signer: &SoftwareSigner,
    data: &[u8],
    r: Result<Vec<u8>>,
    variant: SlhDsaVariant,
    private: Seq<u8>,
    key: Seq<u8>,
    n: int,
)
    requires
        call_ensures(<SoftwareSigner as Signer>::sign, (signer, data), r) || call_ensures(
            SoftwareSigner::checked_sign,
            (signer, data),
            Some(r),
        ),
        signer.spec_algorithm() == SignatureAlgorithm::SlhDsa(variant),
        signer.spec_key() matches SoftwareKey::PostQuantum { private_der: Some(p), .. } && p@
            == private,
        n == (match variant {
            SlhDsaVariant::Sha2_128f | SlhDsaVariant::Sha2_128s => 16int,
            SlhDsaVariant::Sha2_192f | SlhDsaVariant::Sha2_192s => 24,
            SlhDsaVariant::Sha2_256f | SlhDsaVariant::Sha2_256s => 32,
        }),
        slh_dsa_pkcs8_key(variant, private) == Some(key) || (private.len() == 4 * n && key
            == private),
    ensures
        signer.spec_context().len() > 255 ==> {
            &&& r matches Err(Error::Crypto(m))
            &&& m@ == "SLH-DSA sign failed: "@ + "signature error"@
        },
        signer.spec_context().len() <= 255 ==> {
            let message = seq![0u8, signer.spec_context().len() as u8] + signer.spec_context()
                + data@;
            &&& r matches Ok(sig)
            &&& sig@ == slh_dsa_signature(variant, key, message)
            &&& sig@.len() == (match variant {
                SlhDsaVariant::Sha2_128f => 17088nat,
                SlhDsaVariant::Sha2_128s => 7856,
                SlhDsaVariant::Sha2_192f => 35664,
                SlhDsaVariant::Sha2_192s => 16224,
                SlhDsaVariant::Sha2_256f => 49856,
                SlhDsaVariant::Sha2_256s => 29792,
            })
            &&& key.len() == 4 * n && key == slh_dsa_generated(variant, key.take(3 * n))
                ==> slh_dsa_root(variant, key.skip(2 * n), message, sig@) == key.skip(3 * n)
        },
{
    if key.len() == 4 * n {
        assert(key.take(3 * n) =~= key.subrange(0, 3 * n));
        assert(key.skip(2 * n) =~= key.subrange(2 * n, 4 * n));
        assert(key.skip(2 * n).subrange(n, 2 * n) =~= key.skip(3 * n));
    }
}

/// A private key that is neither a document nor as long as a key is blamed.
pub proof fn slh_dsa_blames_unreadable_keys(
    signer: &SoftwareSigner,
    data: &[u8],
    r: Result<Vec<u8>>,
    variant: SlhDsaVariant,
    private: Seq<u8>,
    len: nat,
)
    requires
        call_ensures(<SoftwareSigner as Signer>::sign, (signer, data), r) || call_ensures(
            SoftwareSigner::checked_sign,
            (signer, data),
            Some(r),
        ),
        signer.spec_algorithm() == SignatureAlgorithm::SlhDsa(variant),
        signer.spec_key() matches SoftwareKey::PostQuantum { private_der: Some(p), .. } && p@
            == private,
        len == (match variant {
            SlhDsaVariant::Sha2_128f | SlhDsaVariant::Sha2_128s => 64nat,
            SlhDsaVariant::Sha2_192f | SlhDsaVariant::Sha2_192s => 96,
            SlhDsaVariant::Sha2_256f | SlhDsaVariant::Sha2_256s => 128,
        }),
        private.len() != len,
        slh_dsa_pkcs8_key(variant, private) is None || private.len() < len,
    ensures
        r matches Err(Error::Key(m)) && m@ == "failed to parse SLH-DSA private key: "@
            + "signature error"@,
{
}

/// SLH-DSA verification answers whether the root that the public document's key computes
/// from the message of context and data and from the signature is the root in that key,
/// and answers no for a context of more than 255 bytes. What does not have the parameter
/// set's length is no signature; a public key that is no document is blamed.
pub proof fn slh_dsa_verifies_the_data_in_its_context(
    verifier: &SoftwareVerifier,
    data: &[u8],
    sig: &[u8],
    r: Result<bool>,
    variant: SlhDsaVariant,
    public: Seq<u8>,
)
    requires
        call_ensures(<SoftwareVerifier as Verifier>::verify, (verifier, data, sig), r),
        verifier.spec_algorithm() == SignatureAlgorithm::SlhDsa(variant),
        verifier.spec_key() matches SoftwareKey::PostQuantum { public_der, .. } && public_der@
            == public,
    ensures
        match slh_dsa_document_key(variant, public) {
            Err(text) => r matches Err(Error::Key(m)) && m@
                == "failed to parse SLH-DSA public key: "@ + text,
            Ok(vk) => {
                let context = verifier.spec_context();
                let message = seq![0u8, context.len() as u8] + context + data@;
                let (len, n) = match variant {
                    SlhDsaVariant::Sha2_128f => (17088nat, 16int),
                    SlhDsaVariant::Sha2_128s => (7856nat, 16int),
                    SlhDsaVariant::Sha2_192f => (35664nat, 24int),
                    SlhDsaVariant::Sha2_192s => (16224nat, 24int),
                    SlhDsaVariant::Sha2_256f => (49856nat, 32int),
                    SlhDsaVariant::Sha2_256s => (29792nat, 32int),
                };
                if sig@.len() != len {
                    r matches Err(Error::Crypto(m)) && m@ == "invalid SLH-DSA signature: "@
                        + "signature error"@
                } else {
                    r == Ok::<bool, Error>(
                        context.len() <= 255 && slh_dsa_root(variant, vk, message, sig@)
                            == vk.subrange(n, 2 * n),
                    )
                }
            },
        },
{
}

/// The two checks of an SLH-DSA key say whether key generation makes it of its own first
/// three quarters, and whether a document holds its second half.
pub proof fn slh_dsa_checks_tell_sound_pairs(
    variant: SlhDsaVariant,
    key: &[u8],
    public_der: &[u8],
    generated: bool,
    matching: bool,
    n: int,
)
    requires
        call_ensures(slh_dsa_key_is_generated, (variant, key), generated),
        call_ensures(slh_dsa_public_matches, (variant, key, public_der), matching),
        n == (match variant {
            SlhDsaVariant::Sha2_128f | SlhDsaVariant::Sha2_128s => 16int,
            SlhDsaVariant::Sha2_192f | SlhDsaVariant::Sha2_192s => 24,
            SlhDsaVariant::Sha2_256f | SlhDsaVariant::Sha2_256s => 32,
        }),
        key@.len() == 4 * n,
    ensures
        generated <==> key@ == slh_dsa_generated(variant, key@.take(3 * n)),
        matching <==> slh_dsa_document_key(variant, public_der@) == text_success(
            key@.skip(2 * n),
        ),
{
    assert(key@.take(3 * n) =~= key@.subrange(0, 3 * n));
    assert(key@.skip(2 * n) =~= key@.subrange(2 * n, 4 * n));
}

/// What was drawn into the buffer is the seed, a failed draw is told in its own words, and
/// in either case the buffer is zero afterwards.
pub proof fn drawn_bytes_are_the_seed(
    filled: core::result::Result<(), String>,
    buffer: &mut [u8; 32],
    r: core::result::Result<Vec<u8>, String>,
)
    requires
        call_ensures(seed_from_buffer, (filled, buffer), r),
    ensures
        filled is Ok ==> r is Ok && r->Ok_0@ == old(buffer)@,
        filled matches Err(e) ==> r is Err && r->Err_0@ == e@,
        forall|i: int| 0 <= i < 32 ==> #[trigger] final(buffer)@[i] == 0,
{
}

/// A key is put together from the very seed and the very document, and leaves no seed
/// behind; a document that could not be encoded makes no key.
pub proof fn seeds_are_moved_into_keys(
    variant: MlDsaVariant,
    seed: &mut Vec<u8>,
    encoded: core::result::Result<Vec<u8>, String>,
    r: Result<SoftwareKey>,
)
    requires
        call_ensures(ml_dsa_key_from_parts, (variant, seed, encoded), r) || (call_ensures(
            ml_dsa_key_from_seed,
            (variant, seed),
            r,
        ) && text_outcome(encoded) == ml_dsa_public_document(variant, old(seed)@)),
    ensures
        final(seed)@.len() == 0,
        encoded matches Ok(document) ==> {
            &&& r matches Ok(key)
            &&& key matches SoftwareKey::PostQuantum {
                algorithm,
                private_der: Some(p),
                public_der,
            }
            &&& algorithm == PqAlgorithm::MlDsa(variant)
            &&& p@ == old(seed)@
            &&& public_der@ == document@
        },
        encoded matches Err(e) ==> {
            &&& r matches Err(Error::Crypto(m))
            &&& m@ == "ML-DSA SPKI encode: "@ + e@
        },
{
}

} // verus!
