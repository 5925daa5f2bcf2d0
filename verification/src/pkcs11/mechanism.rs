//! Which PKCS#11 mechanism carries out an algorithm.
use crate::algorithm::{
    HashAlgorithm, KeyTransportAlgorithm, KeyWrapAlgorithm, OaepConfig, SignatureAlgorithm,
};
use crate::bytes::{option_view, to_vec};
use crate::digest::{digest, hash_of};
use crate::error::{outcome, view_outcome, Error, ErrorView, Result};
use crate::text::{join2, join3};
use vstd::prelude::*;

verus! {

/// A hash function as the token knows it.
#[derive(Clone, Copy, Debug, PartialEq, Eq, Structural)]
pub enum MechanismType {
    Sha1,
    Sha256,
    Sha384,
    Sha512,
}

/// A mask generation function as the token knows it.
#[derive(Clone, Copy, Debug, PartialEq, Eq, Structural)]
pub enum MgfType {
    Mgf1Sha1,
    Mgf1Sha256,
    Mgf1Sha384,
    Mgf1Sha512,
}

/// The parameters of RSA-PSS.
#[derive(Clone, Copy, Debug, PartialEq, Eq, Structural)]
pub struct PssParams {
    pub hash_alg: MechanismType,
    pub mgf: MgfType,
    /// The length of the salt in bytes.
    pub s_len: usize,
}

/// A mechanism with its parameters.
#[derive(Debug)]
pub enum Mechanism {
    /// RSA PKCS#1 v1.5 signatures with hashing on the token.
    HashRsaPkcs(MechanismType),
    /// RSA-PSS signatures with hashing on the token.
    HashRsaPkcsPss(MechanismType, PssParams),
    /// ECDSA over data that is hashed already.
    Ecdsa,
    /// Pure Ed25519.
    Eddsa,
    Sha256Hmac,
    /// RSA PKCS#1 v1.5 encryption.
    RsaPkcs,
    /// RSA-OAEP encryption; `source` is the label, if any.
    RsaPkcsOaep { hash_alg: MechanismType, mgf: MgfType, source: Option<Vec<u8>> },
    AesKeyWrap,
    /// ECDH with the null key derivation function and the peer's public key.
    Ecdh1Derive { public_data: Vec<u8> },
    /// AES-CBC with PKCS#7 padding.
    AesCbcPad { iv: Vec<u8> },
    /// AES-GCM.
    AesGcm { iv: Vec<u8>, aad: Vec<u8>, tag_bits: usize },
}

/// The content of a [`Mechanism`].
#[verifier::ext_equal]
pub ghost enum MechanismView {
    HashRsaPkcs(MechanismType),
    HashRsaPkcsPss(MechanismType, PssParams),
    Ecdsa,
    Eddsa,
    Sha256Hmac,
    RsaPkcs,
    RsaPkcsOaep { hash_alg: MechanismType, mgf: MgfType, source: Option<Seq<u8>> },
    AesKeyWrap,
    Ecdh1Derive { public_data: Seq<u8> },
    AesCbcPad { iv: Seq<u8> },
    AesGcm { iv: Seq<u8>, aad: Seq<u8>, tag_bits: usize },
}

impl View for Mechanism {
    type V = MechanismView;

    open spec fn view(&self) -> MechanismView {
        match self {
            Mechanism::HashRsaPkcs(h) => MechanismView::HashRsaPkcs(*h),
            Mechanism::HashRsaPkcsPss(h, p) => MechanismView::HashRsaPkcsPss(*h, *p),
            Mechanism::Ecdsa => MechanismView::Ecdsa,
            Mechanism::Eddsa => MechanismView::Eddsa,
            Mechanism::Sha256Hmac => MechanismView::Sha256Hmac,
            Mechanism::RsaPkcs => MechanismView::RsaPkcs,
            Mechanism::RsaPkcsOaep { hash_alg, mgf, source } => MechanismView::RsaPkcsOaep {
                hash_alg: *hash_alg,
                mgf: *mgf,
                source: option_view(*source),
            },
            Mechanism::AesKeyWrap => MechanismView::AesKeyWrap,
            Mechanism::Ecdh1Derive { public_data } => MechanismView::Ecdh1Derive {
                public_data: public_data@,
            },
            Mechanism::AesCbcPad { iv } => MechanismView::AesCbcPad { iv: iv@ },
            Mechanism::AesGcm { iv, aad, tag_bits } => MechanismView::AesGcm {
                iv: iv@,
                aad: aad@,
                tag_bits: *tag_bits,
            },
        }
    }
}

/// The token's name of a hash function, where it is used with RSA.
pub open spec fn token_hash(hash: HashAlgorithm) -> Option<MechanismType> {
    match hash {
        HashAlgorithm::Sha1 => Some(MechanismType::Sha1),
        HashAlgorithm::Sha256 => Some(MechanismType::Sha256),
        HashAlgorithm::Sha384 => Some(MechanismType::Sha384),
        HashAlgorithm::Sha512 => Some(MechanismType::Sha512),
        _ => None,
    }
}

/// MGF1 with a hash function.
pub open spec fn mgf1(hash: MechanismType) -> MgfType {
    match hash {
        MechanismType::Sha1 => MgfType::Mgf1Sha1,
        MechanismType::Sha256 => MgfType::Mgf1Sha256,
        MechanismType::Sha384 => MgfType::Mgf1Sha384,
        MechanismType::Sha512 => MgfType::Mgf1Sha512,
    }
}

/// The PSS parameters for a hash: MGF1 with the same hash, and a salt as long as
/// the hash.
pub open spec fn pss_params(hash: HashAlgorithm) -> core::result::Result<PssParams, ErrorView> {
    match token_hash(hash) {
        Some(h) => Ok(
            PssParams { hash_alg: h, mgf: mgf1(h), s_len: hash.output_len() as usize },
        ),
        None => Err(ErrorView::UnsupportedAlgorithm("RSA-PSS with "@ + hash.debug_text())),
    }
}

/// The mechanism that signs and verifies with an algorithm, or why there is none.
pub open spec fn signature_mechanism_outcome(algo: SignatureAlgorithm) -> core::result::Result<
    MechanismView,
    ErrorView,
> {
    match algo {
        SignatureAlgorithm::RsaPkcs1v15(hash) => match token_hash(hash) {
            Some(h) => Ok(MechanismView::HashRsaPkcs(h)),
            None => Err(
                ErrorView::UnsupportedAlgorithm(
                    "RSA PKCS#1 v1.5 with "@ + hash.debug_text() + " not supported via PKCS#11"@,
                ),
            ),
        },
        SignatureAlgorithm::RsaPss(hash) => match pss_params(hash) {
            Ok(params) => Ok(MechanismView::HashRsaPkcsPss(params.hash_alg, params)),
            Err(e) => Err(e),
        },
        SignatureAlgorithm::Ecdsa(_, _) => Ok(MechanismView::Ecdsa),
        SignatureAlgorithm::Ed25519 => Ok(MechanismView::Eddsa),
        SignatureAlgorithm::Hmac(hash) => if hash == HashAlgorithm::Sha256 {
            Ok(MechanismView::Sha256Hmac)
        } else {
            Err(
                ErrorView::UnsupportedAlgorithm(
                    "HMAC with "@ + hash.debug_text()
                        + " not supported via PKCS#11 (only SHA-256 HMAC is currently wired up; cryptoki 0.12 exposes more)"@,
                ),
            )
        },
        _ => Err(
            ErrorView::UnsupportedAlgorithm(algo.debug_text() + " not supported via PKCS#11"@),
        ),
    }
}

/// Maps a signature algorithm to its mechanism.
///
/// For RSA the mechanism hashes on the token, so the data goes there as it is. For
/// ECDSA it is the raw one, which expects data that is hashed already: see
/// [`prepare_sign_data`].
pub fn signature_mechanism(algo: &SignatureAlgorithm) -> (r: Result<Mechanism>)
    ensures
        view_outcome(r) == signature_mechanism_outcome(*algo),
{
    match algo {
        SignatureAlgorithm::RsaPkcs1v15(hash) => match hash {
            HashAlgorithm::Sha1 => Ok(Mechanism::HashRsaPkcs(MechanismType::Sha1)),
            HashAlgorithm::Sha256 => Ok(Mechanism::HashRsaPkcs(MechanismType::Sha256)),
            HashAlgorithm::Sha384 => Ok(Mechanism::HashRsaPkcs(MechanismType::Sha384)),
            HashAlgorithm::Sha512 => Ok(Mechanism::HashRsaPkcs(MechanismType::Sha512)),
            other => Err(
                Error::UnsupportedAlgorithm(
                    join3(
                        "RSA PKCS#1 v1.5 with ",
                        other.debug_name(),
                        " not supported via PKCS#11",
                    ),
                ),
            ),
        },
        SignatureAlgorithm::RsaPss(hash) => {
            let (hash_alg, mgf, s_len): (MechanismType, MgfType, usize) = match pss_params_for(
                *hash,
            ) {
                Ok(params) => params,
                Err(e) => return Err(e),
            };
            Ok(Mechanism::HashRsaPkcsPss(hash_alg, PssParams { hash_alg, mgf, s_len }))
        },
        SignatureAlgorithm::Ecdsa(_, _) => Ok(Mechanism::Ecdsa),
        SignatureAlgorithm::Ed25519 => Ok(Mechanism::Eddsa),
        SignatureAlgorithm::Hmac(hash) => match hash {
            HashAlgorithm::Sha256 => Ok(Mechanism::Sha256Hmac),
            other => Err(
                Error::UnsupportedAlgorithm(
                    join3(
                        "HMAC with ",
                        other.debug_name(),
                        " not supported via PKCS#11 (only SHA-256 HMAC is currently wired up; cryptoki 0.12 exposes more)",
                    ),
                ),
            ),
        },
        other => {
            let name: String = other.debug_name();
            Err(Error::UnsupportedAlgorithm(join2(name.as_str(), " not supported via PKCS#11")))
        },
    }
}

/// The hash, the mask generation function and the salt length of RSA-PSS.
pub fn pss_params_for(hash: HashAlgorithm) -> (r: Result<(MechanismType, MgfType, usize)>)
    ensures
        match pss_params(hash) {
            Ok(p) => r is Ok && r->Ok_0 == (p.hash_alg, p.mgf, p.s_len),
            Err(e) => r is Err && r->Err_0@ == e,
        },
{
    match hash {
        HashAlgorithm::Sha1 => Ok((MechanismType::Sha1, MgfType::Mgf1Sha1, 20)),
        HashAlgorithm::Sha256 => Ok((MechanismType::Sha256, MgfType::Mgf1Sha256, 32)),
        HashAlgorithm::Sha384 => Ok((MechanismType::Sha384, MgfType::Mgf1Sha384, 48)),
        HashAlgorithm::Sha512 => Ok((MechanismType::Sha512, MgfType::Mgf1Sha512, 64)),
        other => Err(Error::UnsupportedAlgorithm(join2("RSA-PSS with ", other.debug_name()))),
    }
}

/// The RSA-OAEP mechanism of a configuration and a label, or why there is none: the
/// label's hash is looked at first.
pub open spec fn oaep_mechanism_outcome(
    cfg: OaepConfig,
    label: Option<Seq<u8>>,
) -> core::result::Result<MechanismView, ErrorView> {
    match token_hash(cfg.digest) {
        None => Err(
            ErrorView::UnsupportedAlgorithm(
                "hash "@ + cfg.digest.debug_text() + " not supported for PKCS#11 OAEP"@,
            ),
        ),
        Some(hash_alg) => match token_hash(cfg.mgf_digest) {
            None => Err(
                ErrorView::UnsupportedAlgorithm(
                    "MGF with "@ + cfg.mgf_digest.debug_text() + " not supported"@,
                ),
            ),
            Some(mgf_hash) => Ok(
                MechanismView::RsaPkcsOaep { hash_alg, mgf: mgf1(mgf_hash), source: label },
            ),
        },
    }
}

/// The content of an optional label.
pub open spec fn label_view(label: Option<&[u8]>) -> Option<Seq<u8>> {
    match label {
        Some(bytes) => Some(bytes@),
        None => None,
    }
}

/// Builds the RSA-OAEP mechanism of a configuration and an optional label.
pub fn oaep_mechanism(cfg: &OaepConfig, label: Option<&[u8]>) -> (r: Result<Mechanism>)
    ensures
        view_outcome(r) == oaep_mechanism_outcome(*cfg, label_view(label)),
{
    let hash_alg: MechanismType = match hash_to_mechanism_type(cfg.digest) {
        Ok(h) => h,
        Err(e) => return Err(e),
    };
    let mgf: MgfType = match hash_to_mgf(cfg.mgf_digest) {
        Ok(m) => m,
        Err(e) => return Err(e),
    };
    let source: Option<Vec<u8>> = match label {
        Some(bytes) => Some(to_vec(bytes)),
        None => None,
    };
    Ok(Mechanism::RsaPkcsOaep { hash_alg, mgf, source })
}

/// The token's name of the hash of an OAEP label.
pub fn hash_to_mechanism_type(h: HashAlgorithm) -> (r: Result<MechanismType>)
    ensures
        outcome(r) == (match token_hash(h) {
            Some(t) => Ok(t),
            None => Err(
                ErrorView::UnsupportedAlgorithm(
                    "hash "@ + h.debug_text() + " not supported for PKCS#11 OAEP"@,
                ),
            ),
        }),
{
    match h {
        HashAlgorithm::Sha1 => Ok(MechanismType::Sha1),
        HashAlgorithm::Sha256 => Ok(MechanismType::Sha256),
        HashAlgorithm::Sha384 => Ok(MechanismType::Sha384),
        HashAlgorithm::Sha512 => Ok(MechanismType::Sha512),
        other => Err(
            Error::UnsupportedAlgorithm(
                join3("hash ", other.debug_name(), " not supported for PKCS#11 OAEP"),
            ),
        ),
    }
}

/// MGF1 with a hash, as the token knows it.
pub fn hash_to_mgf(h: HashAlgorithm) -> (r: Result<MgfType>)
    ensures
        outcome(r) == (match token_hash(h) {
            Some(t) => Ok(mgf1(t)),
            None => Err(
                ErrorView::UnsupportedAlgorithm(
                    "MGF with "@ + h.debug_text() + " not supported"@,
                ),
            ),
        }),
{
    match h {
        HashAlgorithm::Sha1 => Ok(MgfType::Mgf1Sha1),
        HashAlgorithm::Sha256 => Ok(MgfType::Mgf1Sha256),
        HashAlgorithm::Sha384 => Ok(MgfType::Mgf1Sha384),
        HashAlgorithm::Sha512 => Ok(MgfType::Mgf1Sha512),
        other => Err(
            Error::UnsupportedAlgorithm(join3("MGF with ", other.debug_name(), " not supported")),
        ),
    }
}

/// The data that goes to the token for signing and verifying: the hash of it for
/// ECDSA, the data itself for every other algorithm.
pub open spec fn token_data(algo: SignatureAlgorithm, data: Seq<u8>) -> Seq<u8> {
    match algo {
        SignatureAlgorithm::Ecdsa(_, hash) => hash_of(hash, data),
        _ => data,
    }
}

/// Prepares the data that goes to the token for signing and verifying.
pub fn prepare_sign_data(algo: &SignatureAlgorithm, data: &[u8]) -> (r: Vec<u8>)
    ensures
        r@ == token_data(*algo, data@),
{
    match algo {
        SignatureAlgorithm::Ecdsa(_, hash) => digest(*hash, data),
        _ => to_vec(data),
    }
}

/// The mechanism that encrypts and decrypts with a key transport algorithm. Only
/// RSA-OAEP has a label.
pub open spec fn key_transport_outcome(
    algo: KeyTransportAlgorithm,
    label: Option<Seq<u8>>,
) -> core::result::Result<MechanismView, ErrorView> {
    match algo {
        KeyTransportAlgorithm::RsaPkcs1v15 => Ok(MechanismView::RsaPkcs),
        KeyTransportAlgorithm::RsaOaep(cfg) => oaep_mechanism_outcome(cfg, label),
    }
}

/// Maps a key transport algorithm to its mechanism.
pub fn key_transport_mechanism(algo: &KeyTransportAlgorithm, label: Option<&[u8]>) -> (r: Result<
    Mechanism,
>)
    ensures
        view_outcome(r) == key_transport_outcome(*algo, label_view(label)),
{
    match algo {
        KeyTransportAlgorithm::RsaPkcs1v15 => Ok(Mechanism::RsaPkcs),
        KeyTransportAlgorithm::RsaOaep(cfg) => oaep_mechanism(cfg, label),
    }
}

/// The mechanism that wraps and unwraps keys.
pub open spec fn keywrap_outcome(algo: KeyWrapAlgorithm) -> core::result::Result<
    MechanismView,
    ErrorView,
> {
    match algo {
        KeyWrapAlgorithm::AesKw(_) => Ok(MechanismView::AesKeyWrap),
        KeyWrapAlgorithm::TripleDesKw => Err(
            ErrorView::UnsupportedAlgorithm("3DES key wrap not supported via PKCS#11"@),
        ),
    }
}

/// Maps a key wrap algorithm to its mechanism.
pub fn keywrap_mechanism(algo: &KeyWrapAlgorithm) -> (r: Result<Mechanism>)
    ensures
        view_outcome(r) == keywrap_outcome(*algo),
{
    match algo {
        KeyWrapAlgorithm::AesKw(_) => Ok(Mechanism::AesKeyWrap),
        KeyWrapAlgorithm::TripleDesKw => Err(
            Error::UnsupportedAlgorithm("3DES key wrap not supported via PKCS#11".to_owned()),
        ),
    }
}

} // verus!
