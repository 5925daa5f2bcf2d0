//! Key material held in memory.
//!
//! RSA, Ed25519 and DSA keys are the outside crates' own types. An elliptic
//! curve key is held as its canonical encoding, in a type that admits only
//! bytes the curve's crate reads as a key.
use crate::algorithm::{EcCurve, PqAlgorithm};
use crate::bytes::{be_value, option_view, zero_padded};
use crate::secret::{wipe_vec, SecretBytes};
use vstd::prelude::*;

verus! {

/// An RSA private key of the `rsa` crate.
#[verifier::external_type_specification]
#[verifier::external_body]
pub struct ExRsaPrivateKey(rsa::RsaPrivateKey);

/// An RSA public key of the `rsa` crate.
#[verifier::external_type_specification]
#[verifier::external_body]
pub struct ExRsaPublicKey(rsa::RsaPublicKey);

/// An Ed25519 signing key of the `ed25519-dalek` crate.
#[verifier::external_type_specification]
#[verifier::external_body]
pub struct ExEd25519SigningKey(ed25519_dalek::SigningKey);

/// An Ed25519 verifying key of the `ed25519-dalek` crate.
#[verifier::external_type_specification]
#[verifier::external_body]
pub struct ExEd25519VerifyingKey(ed25519_dalek::VerifyingKey);

/// A DSA signing key of the `dsa` crate.
#[verifier::external_type_specification]
#[verifier::external_body]
pub struct ExDsaSigningKey(dsa::SigningKey);

/// A DSA verifying key of the `dsa` crate.
#[verifier::external_type_specification]
#[verifier::external_body]
pub struct ExDsaVerifyingKey(dsa::VerifyingKey);

impl EcCurve {
    /// The length in bytes of a field element, and of a scalar, of the curve.
    pub open spec fn field_len(self) -> nat {
        match self {
            EcCurve::P256 => 32,
            EcCurve::P384 => 48,
            EcCurve::P521 => 66,
        }
    }

    /// The order of the curve's group.
    pub open spec fn order(self) -> nat {
        match self {
            EcCurve::P256 =>
                0xffffffff00000000ffffffffffffffffbce6faada7179e84f3b9cac2fc632551nat,
            EcCurve::P384 =>
                0xffffffffffffffffffffffffffffffffffffffffffffffffc7634d81f4372ddf581a0db248b0a77aecec196accc52973nat,
            EcCurve::P521 =>
                0x1fffffffffffffffffffffffffffffffffffffffffffffffffffffffffffffffffa51868783bf2f966b7fcc0148f709a5d03bb5c9b8899c47aebb6fb71e91386409nat,
        }
    }
}

/// Whether `bytes` is the encoding of a private key of the curve: one field
/// length, a number from 1 up to the order.
pub open spec fn is_ec_scalar(curve: EcCurve, bytes: Seq<u8>) -> bool {
    &&& bytes.len() == curve.field_len()
    &&& 0 < be_value(bytes) < curve.order()
}

/// The private key that `bytes` denotes. From 24 bytes on, a string shorter
/// than a field element is read with zeros in front.
pub open spec fn ec_scalar(curve: EcCurve, bytes: Seq<u8>) -> Option<Seq<u8>> {
    let full = zero_padded(bytes, curve.field_len());
    if 24 <= bytes.len() <= curve.field_len() && is_ec_scalar(curve, full) {
        Some(full)
    } else {
        None
    }
}

/// The point that the curve's `VerifyingKey::from_sec1_bytes` reads from
/// `bytes`, in uncompressed SEC1 form; `None` where it refuses them.
pub uninterp spec fn ec_point(curve: EcCurve, bytes: Seq<u8>) -> Option<Seq<u8>>;

/// The public key of the private key `scalar`, in uncompressed SEC1 form.
pub uninterp spec fn ec_public_point(curve: EcCurve, scalar: Seq<u8>) -> Seq<u8>;

/// Calls `p256::ecdsa::SigningKey::from_slice`, and `to_bytes` on what it
/// gives. Claims that exactly the strings of [`ec_scalar`] are read, and that
/// what comes back is the zero-padded input.
#[verifier::external_body]
fn p256_scalar_from_slice(bytes: &[u8]) -> (r: Option<Vec<u8>>)
    ensures
        option_view(r) == ec_scalar(EcCurve::P256, bytes@),
{
    p256::ecdsa::SigningKey::from_slice(bytes).ok().map(|key| key.to_bytes().to_vec())
}

/// Calls `p256::ecdsa::VerifyingKey::from_sec1_bytes`, and `to_encoded_point`
/// without compression on what it gives. Claims that the outcome is a function
/// of the bytes, and that the uncompressed form is read back as itself.
#[verifier::external_body]
fn p256_point_from_sec1_bytes(bytes: &[u8]) -> (r: Option<Vec<u8>>)
    ensures
        option_view(r) == ec_point(EcCurve::P256, bytes@),
        r matches Some(p) ==> ec_point(EcCurve::P256, p@) == Some(p@),
{
    p256::ecdsa::VerifyingKey::from_sec1_bytes(bytes)
        .ok()
        .map(|key| key.to_encoded_point(false).as_bytes().to_vec())
}

/// Calls `verifying_key` on the `p256::ecdsa::SigningKey` of `scalar`, and
/// `to_encoded_point` without compression on what it gives. Claims that the
/// outcome is a function of the scalar, and a point in uncompressed form.
#[verifier::external_body]
fn p256_public_point(scalar: &[u8]) -> (r: Vec<u8>)
    requires
        is_ec_scalar(EcCurve::P256, scalar@),
    ensures
        r@ == ec_public_point(EcCurve::P256, scalar@),
        ec_point(EcCurve::P256, r@) == Some(r@),
{
    let key = p256::ecdsa::SigningKey::from_slice(scalar).unwrap();
    key.verifying_key().to_encoded_point(false).as_bytes().to_vec()
}

/// A P-256 private key.
pub struct P256SigningKey {
    bytes: SecretBytes,
}

impl View for P256SigningKey {
    type V = Seq<u8>;

    closed spec fn view(&self) -> Seq<u8> {
        self.bytes@
    }
}

impl P256SigningKey {
    #[verifier::type_invariant]
    spec fn wf(self) -> bool {
        is_ec_scalar(EcCurve::P256, self.bytes@)
    }

    /// Reads a private key from its big-endian scalar.
    pub fn from_slice(bytes: &[u8]) -> (r: Option<P256SigningKey>)
        ensures
            r is Some <==> ec_scalar(EcCurve::P256, bytes@) is Some,
            r matches Some(key) ==> Some(key@) == ec_scalar(EcCurve::P256, bytes@),
    {
        match p256_scalar_from_slice(bytes) {
            Some(bytes) => Some(P256SigningKey { bytes: SecretBytes::new(bytes) }),
            None => None,
        }
    }

    /// The scalar as 32 big-endian bytes.
    pub fn as_bytes(&self) -> (r: &[u8])
        ensures
            r@ == self@,
            is_ec_scalar(EcCurve::P256, r@),
    {
        proof {
            use_type_invariant(self);
        }
        self.bytes.as_slice()
    }

    /// The public key of this private key.
    pub fn verifying_key(&self) -> (r: P256VerifyingKey)
        ensures
            r@ == ec_public_point(EcCurve::P256, self@),
    {
        proof {
            use_type_invariant(self);
        }
        P256VerifyingKey { bytes: p256_public_point(self.bytes.as_slice()) }
    }
}

/// A P-256 public key.
pub struct P256VerifyingKey {
    bytes: Vec<u8>,
}

impl View for P256VerifyingKey {
    type V = Seq<u8>;

    closed spec fn view(&self) -> Seq<u8> {
        self.bytes@
    }
}

impl P256VerifyingKey {
    #[verifier::type_invariant]
    spec fn wf(self) -> bool {
        ec_point(EcCurve::P256, self.bytes@) == Some(self.bytes@)
    }

    /// Reads a public key from a SEC1 encoding, compressed or not.
    pub fn from_sec1_bytes(bytes: &[u8]) -> (r: Option<P256VerifyingKey>)
        ensures
            r is Some <==> ec_point(EcCurve::P256, bytes@) is Some,
            r matches Some(key) ==> Some(key@) == ec_point(EcCurve::P256, bytes@),
    {
        match p256_point_from_sec1_bytes(bytes) {
            Some(bytes) => Some(P256VerifyingKey { bytes }),
            None => None,
        }
    }

    /// The point in uncompressed SEC1 form.
    pub fn as_bytes(&self) -> (r: &[u8])
        ensures
            r@ == self@,
            ec_point(EcCurve::P256, r@) == Some(r@),
    {
        proof {
            use_type_invariant(self);
        }
        self.bytes.as_slice()
    }
}

/// Calls `p384::ecdsa::SigningKey::from_slice`, and `to_bytes` on what it
/// gives. Claims that exactly the strings of [`ec_scalar`] are read, and that
/// what comes back is the zero-padded input.
#[verifier::external_body]
fn p384_scalar_from_slice(bytes: &[u8]) -> (r: Option<Vec<u8>>)
    ensures
        option_view(r) == ec_scalar(EcCurve::P384, bytes@),
{
    p384::ecdsa::SigningKey::from_slice(bytes).ok().map(|key| key.to_bytes().to_vec())
}

/// Calls `p384::ecdsa::VerifyingKey::from_sec1_bytes`, and `to_encoded_point`
/// without compression on what it gives. Claims that the outcome is a function
/// of the bytes, and that the uncompressed form is read back as itself.
#[verifier::external_body]
fn p384_point_from_sec1_bytes(bytes: &[u8]) -> (r: Option<Vec<u8>>)
    ensures
        option_view(r) == ec_point(EcCurve::P384, bytes@),
        r matches Some(p) ==> ec_point(EcCurve::P384, p@) == Some(p@),
{
    p384::ecdsa::VerifyingKey::from_sec1_bytes(bytes)
        .ok()
        .map(|key| key.to_encoded_point(false).as_bytes().to_vec())
}

/// Calls `verifying_key` on the `p384::ecdsa::SigningKey` of `scalar`, and
/// `to_encoded_point` without compression on what it gives. Claims that the
/// outcome is a function of the scalar, and a point in uncompressed form.
#[verifier::external_body]
fn p384_public_point(scalar: &[u8]) -> (r: Vec<u8>)
    requires
        is_ec_scalar(EcCurve::P384, scalar@),
    ensures
        r@ == ec_public_point(EcCurve::P384, scalar@),
        ec_point(EcCurve::P384, r@) == Some(r@),
{
    let key = p384::ecdsa::SigningKey::from_slice(scalar).unwrap();
    key.verifying_key().to_encoded_point(false).as_bytes().to_vec()
}

/// A P-384 private key.
pub struct P384SigningKey {
    bytes: SecretBytes,
}

impl View for P384SigningKey {
    type V = Seq<u8>;

    closed spec fn view(&self) -> Seq<u8> {
        self.bytes@
    }
}

impl P384SigningKey {
    #[verifier::type_invariant]
    spec fn wf(self) -> bool {
        is_ec_scalar(EcCurve::P384, self.bytes@)
    }

    /// Reads a private key from its big-endian scalar.
    pub fn from_slice(bytes: &[u8]) -> (r: Option<P384SigningKey>)
        ensures
            r is Some <==> ec_scalar(EcCurve::P384, bytes@) is Some,
            r matches Some(key) ==> Some(key@) == ec_scalar(EcCurve::P384, bytes@),
    {
        match p384_scalar_from_slice(bytes) {
            Some(bytes) => Some(P384SigningKey { bytes: SecretBytes::new(bytes) }),
            None => None,
        }
    }

    /// The scalar as 48 big-endian bytes.
    pub fn as_bytes(&self) -> (r: &[u8])
        ensures
            r@ == self@,
            is_ec_scalar(EcCurve::P384, r@),
    {
        proof {
            use_type_invariant(self);
        }
        self.bytes.as_slice()
    }

    /// The public key of this private key.
    pub fn verifying_key(&self) -> (r: P384VerifyingKey)
        ensures
            r@ == ec_public_point(EcCurve::P384, self@),
    {
        proof {
            use_type_invariant(self);
        }
        P384VerifyingKey { bytes: p384_public_point(self.bytes.as_slice()) }
    }
}

/// A P-384 public key.
pub struct P384VerifyingKey {
    bytes: Vec<u8>,
}

impl View for P384VerifyingKey {
    type V = Seq<u8>;

    closed spec fn view(&self) -> Seq<u8> {
        self.bytes@
    }
}

impl P384VerifyingKey {
    #[verifier::type_invariant]
    spec fn wf(self) -> bool {
        ec_point(EcCurve::P384, self.bytes@) == Some(self.bytes@)
    }

    /// Reads a public key from a SEC1 encoding, compressed or not.
    pub fn from_sec1_bytes(bytes: &[u8]) -> (r: Option<P384VerifyingKey>)
        ensures
            r is Some <==> ec_point(EcCurve::P384, bytes@) is Some,
            r matches Some(key) ==> Some(key@) == ec_point(EcCurve::P384, bytes@),
    {
        match p384_point_from_sec1_bytes(bytes) {
            Some(bytes) => Some(P384VerifyingKey { bytes }),
            None => None,
        }
    }

    /// The point in uncompressed SEC1 form.
    pub fn as_bytes(&self) -> (r: &[u8])
        ensures
            r@ == self@,
            ec_point(EcCurve::P384, r@) == Some(r@),
    {
        proof {
            use_type_invariant(self);
        }
        self.bytes.as_slice()
    }
}

/// Calls `p521::ecdsa::SigningKey::from_slice`, and `to_bytes` on what it
/// gives. Claims that exactly the strings of [`ec_scalar`] are read, and that
/// what comes back is the zero-padded input.
#[verifier::external_body]
fn p521_scalar_from_slice(bytes: &[u8]) -> (r: Option<Vec<u8>>)
    ensures
        option_view(r) == ec_scalar(EcCurve::P521, bytes@),
{
    p521::ecdsa::SigningKey::from_slice(bytes).ok().map(|key| key.to_bytes().to_vec())
}

/// Calls `p521::ecdsa::VerifyingKey::from_sec1_bytes`, and `to_encoded_point`
/// without compression on what it gives. Claims that the outcome is a function
/// of the bytes, and that the uncompressed form is read back as itself.
#[verifier::external_body]
fn p521_point_from_sec1_bytes(bytes: &[u8]) -> (r: Option<Vec<u8>>)
    ensures
        option_view(r) == ec_point(EcCurve::P521, bytes@),
        r matches Some(p) ==> ec_point(EcCurve::P521, p@) == Some(p@),
{
    p521::ecdsa::VerifyingKey::from_sec1_bytes(bytes)
        .ok()
        .map(|key| key.to_encoded_point(false).as_bytes().to_vec())
}

/// Calls `p521::ecdsa::VerifyingKey::from` on the signing key of `scalar`, and
/// `to_encoded_point` without compression on what it gives. Claims that the
/// outcome is a function of the scalar, and a point in uncompressed form.
#[verifier::external_body]
fn p521_public_point(scalar: &[u8]) -> (r: Vec<u8>)
    requires
        is_ec_scalar(EcCurve::P521, scalar@),
    ensures
        r@ == ec_public_point(EcCurve::P521, scalar@),
        ec_point(EcCurve::P521, r@) == Some(r@),
{
    let key = p521::ecdsa::SigningKey::from_slice(scalar).unwrap();
    p521::ecdsa::VerifyingKey::from(&key).to_encoded_point(false).as_bytes().to_vec()
}

/// A P-521 private key.
pub struct P521SigningKey {
    bytes: SecretBytes,
}

impl View for P521SigningKey {
    type V = Seq<u8>;

    closed spec fn view(&self) -> Seq<u8> {
        self.bytes@
    }
}

impl P521SigningKey {
    #[verifier::type_invariant]
    spec fn wf(self) -> bool {
        is_ec_scalar(EcCurve::P521, self.bytes@)
    }

    /// Reads a private key from its big-endian scalar.
    pub fn from_slice(bytes: &[u8]) -> (r: Option<P521SigningKey>)
        ensures
            r is Some <==> ec_scalar(EcCurve::P521, bytes@) is Some,
            r matches Some(key) ==> Some(key@) == ec_scalar(EcCurve::P521, bytes@),
    {
        match p521_scalar_from_slice(bytes) {
            Some(bytes) => Some(P521SigningKey { bytes: SecretBytes::new(bytes) }),
            None => None,
        }
    }

    /// The scalar as 66 big-endian bytes.
    pub fn as_bytes(&self) -> (r: &[u8])
        ensures
            r@ == self@,
            is_ec_scalar(EcCurve::P521, r@),
    {
        proof {
            use_type_invariant(self);
        }
        self.bytes.as_slice()
    }

    /// The public key of this private key.
    pub fn verifying_key(&self) -> (r: P521VerifyingKey)
        ensures
            r@ == ec_public_point(EcCurve::P521, self@),
    {
        proof {
            use_type_invariant(self);
        }
        P521VerifyingKey { bytes: p521_public_point(self.bytes.as_slice()) }
    }
}

/// A P-521 public key.
pub struct P521VerifyingKey {
    bytes: Vec<u8>,
}

impl View for P521VerifyingKey {
    type V = Seq<u8>;

    closed spec fn view(&self) -> Seq<u8> {
        self.bytes@
    }
}

impl P521VerifyingKey {
    #[verifier::type_invariant]
    spec fn wf(self) -> bool {
        ec_point(EcCurve::P521, self.bytes@) == Some(self.bytes@)
    }

    /// Reads a public key from a SEC1 encoding, compressed or not.
    pub fn from_sec1_bytes(bytes: &[u8]) -> (r: Option<P521VerifyingKey>)
        ensures
            r is Some <==> ec_point(EcCurve::P521, bytes@) is Some,
            r matches Some(key) ==> Some(key@) == ec_point(EcCurve::P521, bytes@),
    {
        match p521_point_from_sec1_bytes(bytes) {
            Some(bytes) => Some(P521VerifyingKey { bytes }),
            None => None,
        }
    }

    /// The point in uncompressed SEC1 form.
    pub fn as_bytes(&self) -> (r: &[u8])
        ensures
            r@ == self@,
            ec_point(EcCurve::P521, r@) == Some(r@),
    {
        proof {
            use_type_invariant(self);
        }
        self.bytes.as_slice()
    }
}

/// Key material for one of the signature families. A key is wiped when it is
/// dropped.
#[allow(inconsistent_fields)]
pub enum SoftwareKey {
    Rsa { private: Option<rsa::RsaPrivateKey>, public: rsa::RsaPublicKey },
    EcP256 { private: Option<P256SigningKey>, public: P256VerifyingKey },
    EcP384 { private: Option<P384SigningKey>, public: P384VerifyingKey },
    EcP521 { private: Option<P521SigningKey>, public: P521VerifyingKey },
    Ed25519 {
        private: Option<ed25519_dalek::SigningKey>,
        public: ed25519_dalek::VerifyingKey,
    },
    /// The secret of a message-authentication code.
    Hmac(Vec<u8>),
    Dsa { private: Option<dsa::SigningKey>, public: dsa::VerifyingKey },
    PostQuantum {
        algorithm: PqAlgorithm,
        /// A PKCS#8 document, or the bare seed (ML-DSA) or key bytes (SLH-DSA).
        private_der: Option<Vec<u8>>,
        /// A SubjectPublicKeyInfo document.
        public_der: Vec<u8>,
    },
}

impl SoftwareKey {
    /// Whether this is `before` with nothing left of the secrets that are held as
    /// plain bytes.
    pub open spec fn is_wiped_form_of(self, before: SoftwareKey) -> bool {
        match before {
            SoftwareKey::Hmac(_) => {
                &&& self matches SoftwareKey::Hmac(secret)
                &&& secret@ == Seq::<u8>::empty()
            },
            SoftwareKey::PostQuantum { algorithm, private_der: Some(_), public_der } => {
                &&& self matches SoftwareKey::PostQuantum {
                    algorithm: same_algorithm,
                    private_der: Some(private),
                    public_der: same_public,
                }
                &&& same_algorithm == algorithm
                &&& private@ == Seq::<u8>::empty()
                &&& same_public == public_der
            },
            _ => self == before,
        }
    }

    /// Wipes the secrets that are held as plain bytes: that of a message
    /// authentication code, and a post-quantum private key. The other private keys
    /// wipe themselves when they are dropped.
    pub fn wipe(&mut self)
        ensures
            final(self).is_wiped_form_of(*old(self)),
        opens_invariants none
        no_unwind
    {
        match self {
            SoftwareKey::Hmac(secret) => wipe_vec(secret),
            SoftwareKey::PostQuantum { private_der: Some(private), .. } => wipe_vec(private),
            _ => {},
        }
    }
}

impl Drop for SoftwareKey {
    fn drop(&mut self)
        ensures
            final(self).is_wiped_form_of(*old(self)),
        opens_invariants none
        no_unwind
    {
        self.wipe()
    }
}

} // verus!
