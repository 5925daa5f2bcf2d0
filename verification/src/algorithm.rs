//! The algorithms that keys, signers and ciphers are named by.
use crate::text::join3;
use vstd::prelude::*;
use vstd::string::StringExecFns;

verus! {

/// A hash function.
#[derive(Clone, Copy, Debug, PartialEq, Eq, Structural)]
pub enum HashAlgorithm {
    Sha1,
    Sha224,
    Sha256,
    Sha384,
    Sha512,
    Sha3_224,
    Sha3_256,
    Sha3_384,
    Sha3_512,
    Md5,
    Ripemd160,
}

impl HashAlgorithm {
    /// The variant's name, as messages quote it.
    pub open spec fn debug_text(self) -> Seq<char> {
        match self {
            HashAlgorithm::Sha1 => "Sha1"@,
            HashAlgorithm::Sha224 => "Sha224"@,
            HashAlgorithm::Sha256 => "Sha256"@,
            HashAlgorithm::Sha384 => "Sha384"@,
            HashAlgorithm::Sha512 => "Sha512"@,
            HashAlgorithm::Sha3_224 => "Sha3_224"@,
            HashAlgorithm::Sha3_256 => "Sha3_256"@,
            HashAlgorithm::Sha3_384 => "Sha3_384"@,
            HashAlgorithm::Sha3_512 => "Sha3_512"@,
            HashAlgorithm::Md5 => "Md5"@,
            HashAlgorithm::Ripemd160 => "Ripemd160"@,
        }
    }

    /// The variant's name, as messages quote it.
    pub fn debug_name(&self) -> (r: &'static str)
        ensures
            r@ == self.debug_text(),
    {
        match self {
            HashAlgorithm::Sha1 => "Sha1",
            HashAlgorithm::Sha224 => "Sha224",
            HashAlgorithm::Sha256 => "Sha256",
            HashAlgorithm::Sha384 => "Sha384",
            HashAlgorithm::Sha512 => "Sha512",
            HashAlgorithm::Sha3_224 => "Sha3_224",
            HashAlgorithm::Sha3_256 => "Sha3_256",
            HashAlgorithm::Sha3_384 => "Sha3_384",
            HashAlgorithm::Sha3_512 => "Sha3_512",
            HashAlgorithm::Md5 => "Md5",
            HashAlgorithm::Ripemd160 => "Ripemd160",
        }
    }
}

/// A NIST prime curve.
#[derive(Clone, Copy, Debug, PartialEq, Eq, Structural)]
pub enum EcCurve {
    P256,
    P384,
    P521,
}

impl EcCurve {
    /// The variant's name, as messages quote it.
    pub open spec fn debug_text(self) -> Seq<char> {
        match self {
            EcCurve::P256 => "P256"@,
            EcCurve::P384 => "P384"@,
            EcCurve::P521 => "P521"@,
        }
    }

    /// The variant's name, as messages quote it.
    pub fn debug_name(&self) -> (r: &'static str)
        ensures
            r@ == self.debug_text(),
    {
        match self {
            EcCurve::P256 => "P256",
            EcCurve::P384 => "P384",
            EcCurve::P521 => "P521",
        }
    }
}

/// A parameter set of ML-DSA.
#[derive(Clone, Copy, Debug, PartialEq, Eq, Structural)]
pub enum MlDsaVariant {
    MlDsa44,
    MlDsa65,
    MlDsa87,
}

impl MlDsaVariant {
    /// The variant's name, as messages quote it.
    pub open spec fn debug_text(self) -> Seq<char> {
        match self {
            MlDsaVariant::MlDsa44 => "MlDsa44"@,
            MlDsaVariant::MlDsa65 => "MlDsa65"@,
            MlDsaVariant::MlDsa87 => "MlDsa87"@,
        }
    }

    /// The variant's name, as messages quote it.
    pub fn debug_name(&self) -> (r: &'static str)
        ensures
            r@ == self.debug_text(),
    {
        match self {
            MlDsaVariant::MlDsa44 => "MlDsa44",
            MlDsaVariant::MlDsa65 => "MlDsa65",
            MlDsaVariant::MlDsa87 => "MlDsa87",
        }
    }
}

impl MlDsaVariant {
    /// The parameter set's name.
    pub open spec fn name_text(self) -> Seq<char> {
        match self {
            MlDsaVariant::MlDsa44 => "ML-DSA-44"@,
            MlDsaVariant::MlDsa65 => "ML-DSA-65"@,
            MlDsaVariant::MlDsa87 => "ML-DSA-87"@,
        }
    }

    /// The parameter set's name.
    pub fn name(&self) -> (r: &'static str)
        ensures
            r@ == self.name_text(),
    {
        match self {
            MlDsaVariant::MlDsa44 => "ML-DSA-44",
            MlDsaVariant::MlDsa65 => "ML-DSA-65",
            MlDsaVariant::MlDsa87 => "ML-DSA-87",
        }
    }
}

/// A parameter set of SLH-DSA over SHA-2.
#[derive(Clone, Copy, Debug, PartialEq, Eq, Structural)]
pub enum SlhDsaVariant {
    Sha2_128f,
    Sha2_128s,
    Sha2_192f,
    Sha2_192s,
    Sha2_256f,
    Sha2_256s,
}

impl SlhDsaVariant {
    /// The variant's name, as messages quote it.
    pub open spec fn debug_text(self) -> Seq<char> {
        match self {
            SlhDsaVariant::Sha2_128f => "Sha2_128f"@,
            SlhDsaVariant::Sha2_128s => "Sha2_128s"@,
            SlhDsaVariant::Sha2_192f => "Sha2_192f"@,
            SlhDsaVariant::Sha2_192s => "Sha2_192s"@,
            SlhDsaVariant::Sha2_256f => "Sha2_256f"@,
            SlhDsaVariant::Sha2_256s => "Sha2_256s"@,
        }
    }

    /// The variant's name, as messages quote it.
    pub fn debug_name(&self) -> (r: &'static str)
        ensures
            r@ == self.debug_text(),
    {
        match self {
            SlhDsaVariant::Sha2_128f => "Sha2_128f",
            SlhDsaVariant::Sha2_128s => "Sha2_128s",
            SlhDsaVariant::Sha2_192f => "Sha2_192f",
            SlhDsaVariant::Sha2_192s => "Sha2_192s",
            SlhDsaVariant::Sha2_256f => "Sha2_256f",
            SlhDsaVariant::Sha2_256s => "Sha2_256s",
        }
    }
}

impl SlhDsaVariant {
    /// The parameter set's name.
    pub open spec fn name_text(self) -> Seq<char> {
        match self {
            SlhDsaVariant::Sha2_128f => "SLH-DSA-SHA2-128f"@,
            SlhDsaVariant::Sha2_128s => "SLH-DSA-SHA2-128s"@,
            SlhDsaVariant::Sha2_192f => "SLH-DSA-SHA2-192f"@,
            SlhDsaVariant::Sha2_192s => "SLH-DSA-SHA2-192s"@,
            SlhDsaVariant::Sha2_256f => "SLH-DSA-SHA2-256f"@,
            SlhDsaVariant::Sha2_256s => "SLH-DSA-SHA2-256s"@,
        }
    }

    /// The parameter set's name.
    pub fn name(&self) -> (r: &'static str)
        ensures
            r@ == self.name_text(),
    {
        match self {
            SlhDsaVariant::Sha2_128f => "SLH-DSA-SHA2-128f",
            SlhDsaVariant::Sha2_128s => "SLH-DSA-SHA2-128s",
            SlhDsaVariant::Sha2_192f => "SLH-DSA-SHA2-192f",
            SlhDsaVariant::Sha2_192s => "SLH-DSA-SHA2-192s",
            SlhDsaVariant::Sha2_256f => "SLH-DSA-SHA2-256f",
            SlhDsaVariant::Sha2_256s => "SLH-DSA-SHA2-256s",
        }
    }
}

/// A post-quantum signature scheme with its parameter set.
#[derive(Clone, Copy, Debug, PartialEq, Eq, Structural)]
pub enum PqAlgorithm {
    MlDsa(MlDsaVariant),
    SlhDsa(SlhDsaVariant),
}

impl PqAlgorithm {
    /// The parameter set's name.
    pub open spec fn name_text(self) -> Seq<char> {
        match self {
            PqAlgorithm::MlDsa(v) => v.name_text(),
            PqAlgorithm::SlhDsa(v) => v.name_text(),
        }
    }

    /// The parameter set's name.
    pub fn name(&self) -> (r: &'static str)
        ensures
            r@ == self.name_text(),
    {
        match self {
            PqAlgorithm::MlDsa(v) => v.name(),
            PqAlgorithm::SlhDsa(v) => v.name(),
        }
    }
}

/// A signature or message-authentication algorithm.
#[derive(Clone, Copy, Debug, PartialEq, Eq, Structural)]
pub enum SignatureAlgorithm {
    RsaPkcs1v15(HashAlgorithm),
    RsaPss(HashAlgorithm),
    Ecdsa(EcCurve, HashAlgorithm),
    Ed25519,
    Hmac(HashAlgorithm),
    Dsa(HashAlgorithm),
    MlDsa(MlDsaVariant),
    SlhDsa(SlhDsaVariant),
}

impl SignatureAlgorithm {
    /// The algorithm as messages quote it: the variant's name and, in
    /// brackets, its parameters.
    pub open spec fn debug_text(self) -> Seq<char> {
        match self {
            SignatureAlgorithm::RsaPkcs1v15(h) => "RsaPkcs1v15("@ + h.debug_text() + ")"@,
            SignatureAlgorithm::RsaPss(h) => "RsaPss("@ + h.debug_text() + ")"@,
            SignatureAlgorithm::Ecdsa(c, h) => "Ecdsa("@ + c.debug_text() + ", "@ + h.debug_text()
                + ")"@,
            SignatureAlgorithm::Ed25519 => "Ed25519"@,
            SignatureAlgorithm::Hmac(h) => "Hmac("@ + h.debug_text() + ")"@,
            SignatureAlgorithm::Dsa(h) => "Dsa("@ + h.debug_text() + ")"@,
            SignatureAlgorithm::MlDsa(v) => "MlDsa("@ + v.debug_text() + ")"@,
            SignatureAlgorithm::SlhDsa(v) => "SlhDsa("@ + v.debug_text() + ")"@,
        }
    }

    /// The algorithm as messages quote it.
    pub fn debug_name(&self) -> (r: String)
        ensures
            r@ == self.debug_text(),
    {
        match self {
            SignatureAlgorithm::RsaPkcs1v15(h) => join3("RsaPkcs1v15(", h.debug_name(), ")"),
            SignatureAlgorithm::RsaPss(h) => join3("RsaPss(", h.debug_name(), ")"),
            SignatureAlgorithm::Ecdsa(c, h) => {
                let head: String = join3("Ecdsa(", c.debug_name(), ", ");
                head.concat(h.debug_name()).concat(")")
            },
            SignatureAlgorithm::Ed25519 => "Ed25519".to_owned(),
            SignatureAlgorithm::Hmac(h) => join3("Hmac(", h.debug_name(), ")"),
            SignatureAlgorithm::Dsa(h) => join3("Dsa(", h.debug_name(), ")"),
            SignatureAlgorithm::MlDsa(v) => join3("MlDsa(", v.debug_name(), ")"),
            SignatureAlgorithm::SlhDsa(v) => join3("SlhDsa(", v.debug_name(), ")"),
        }
    }
}

/// The two hash functions of RSA-OAEP.
#[derive(Clone, Copy, Debug, PartialEq, Eq, Structural)]
pub struct OaepConfig {
    /// The hash of the label.
    pub digest: HashAlgorithm,
    /// The hash inside the mask generation function.
    pub mgf_digest: HashAlgorithm,
}

/// An algorithm that carries a key under an RSA public key.
#[derive(Clone, Copy, Debug, PartialEq, Eq, Structural)]
pub enum KeyTransportAlgorithm {
    RsaPkcs1v15,
    RsaOaep(OaepConfig),
}

/// The size of an AES key.
#[derive(Clone, Copy, Debug, PartialEq, Eq, Structural)]
pub enum AesKeySize {
    Aes128,
    Aes192,
    Aes256,
}

/// An algorithm that wraps a key under a symmetric key.
#[derive(Clone, Copy, Debug, PartialEq, Eq, Structural)]
pub enum KeyWrapAlgorithm {
    AesKw(AesKeySize),
    TripleDesKw,
}

/// A symmetric cipher with its mode of operation.
#[derive(Clone, Copy, Debug, PartialEq, Eq, Structural)]
pub enum CipherAlgorithm {
    AesCbc(AesKeySize),
    AesGcm(AesKeySize),
    TripleDesCbc,
}

} // verus!
