//! AES-CBC and AES-GCM with a key on a token.
use crate::algorithm::CipherAlgorithm;
use crate::bytes::{join, to_vec};
use crate::error::{outcome, view_outcome, Error, ErrorView, Result};
use crate::pkcs11::mechanism::{Mechanism, MechanismView};
use crate::pkcs11::provider::Pkcs11Session;
use crate::pkcs11::request::{
    reply_outcome, CallKind, CallReply, CallView, Locking, ObjectClass, ObjectQuery, TokenCall,
};
use crate::text::join2;
use vstd::prelude::*;
use vstd::slice::slice_subrange;

verus! {

/// A mode of operation of AES.
#[derive(Clone, Copy, Debug, PartialEq, Eq, Structural)]
pub enum AesMode {
    Cbc,
    Gcm,
}

impl AesMode {
    /// The length in bytes of the IV or nonce in front of a ciphertext.
    pub open spec fn prefix_len(self) -> nat {
        match self {
            AesMode::Cbc => 16,
            AesMode::Gcm => 12,
        }
    }

    /// The shortest ciphertext in bytes, without its prefix: a padded block, or
    /// the authentication tag.
    pub open spec fn min_body_len(self) -> nat {
        16
    }

    /// The mechanism with an IV or nonce.
    pub open spec fn mechanism_view(self, iv: Seq<u8>) -> MechanismView {
        match self {
            AesMode::Cbc => MechanismView::AesCbcPad { iv },
            AesMode::Gcm => MechanismView::AesGcm { iv, aad: Seq::empty(), tag_bits: 128 },
        }
    }

    /// What an encryption is called.
    pub open spec fn encrypt_kind(self) -> CallKind {
        match self {
            AesMode::Cbc => CallKind::CbcEncrypt,
            AesMode::Gcm => CallKind::GcmEncrypt,
        }
    }

    /// What a decryption is called.
    pub open spec fn decrypt_kind(self) -> CallKind {
        match self {
            AesMode::Cbc => CallKind::CbcDecrypt,
            AesMode::Gcm => CallKind::GcmDecrypt,
        }
    }

    /// What is said of a ciphertext that is too short.
    pub open spec fn short_text(self) -> Seq<char> {
        match self {
            AesMode::Cbc => "AES-CBC ciphertext too short (need IV + at least one block)"@,
            AesMode::Gcm => "AES-GCM ciphertext too short (need nonce + tag)"@,
        }
    }

    fn prefix_size(&self) -> (r: usize)
        ensures
            r == self.prefix_len(),
    {
        match self {
            AesMode::Cbc => 16,
            AesMode::Gcm => 12,
        }
    }

    fn mechanism(&self, iv: &[u8]) -> (r: Mechanism)
        ensures
            r@ == self.mechanism_view(iv@),
    {
        match self {
            AesMode::Cbc => Mechanism::AesCbcPad { iv: to_vec(iv) },
            AesMode::Gcm => {
                let aad: Vec<u8> = Vec::new();
                assert(aad@ =~= Seq::<u8>::empty());
                Mechanism::AesGcm { iv: to_vec(iv), aad, tag_bits: 128 }
            },
        }
    }
}

/// The mode of a cipher, or why there is none.
pub open spec fn mode_outcome(algorithm: CipherAlgorithm) -> core::result::Result<
    AesMode,
    ErrorView,
> {
    match algorithm {
        CipherAlgorithm::AesCbc(_) => Ok(AesMode::Cbc),
        CipherAlgorithm::AesGcm(_) => Ok(AesMode::Gcm),
        CipherAlgorithm::TripleDesCbc => Err(
            ErrorView::UnsupportedAlgorithm("3DES-CBC not supported via PKCS#11 cipher"@),
        ),
    }
}

fn mode_of(algorithm: CipherAlgorithm) -> (r: Result<AesMode>)
    ensures
        outcome(r) == mode_outcome(algorithm),
{
    match algorithm {
        CipherAlgorithm::AesCbc(_) => Ok(AesMode::Cbc),
        CipherAlgorithm::AesGcm(_) => Ok(AesMode::Gcm),
        CipherAlgorithm::TripleDesCbc => Err(
            Error::UnsupportedAlgorithm("3DES-CBC not supported via PKCS#11 cipher".to_owned()),
        ),
    }
}

/// The call that decrypts `data`, which is an IV or nonce and the ciphertext; or
/// why there is none.
pub open spec fn decrypt_call<H>(algorithm: CipherAlgorithm, key: H, data: Seq<u8>) -> core::result::Result<
    CallView<H>,
    ErrorView,
> {
    match mode_outcome(algorithm) {
        Ok(mode) => {
            let n = mode.prefix_len();
            if data.len() < n + mode.min_body_len() {
                Err(ErrorView::Crypto(mode.short_text()))
            } else {
                Ok(
                    CallView {
                        kind: mode.decrypt_kind(),
                        mechanism: mode.mechanism_view(data.subrange(0, n as int)),
                        key,
                        data: data.subrange(n as int, data.len() as int),
                    },
                )
            }
        },
        Err(e) => Err(e),
    }
}

/// Encrypts and decrypts with an AES key on a token.
///
/// The IV or nonce stands in front of the ciphertext: 16 bytes for AES-CBC, which
/// pads by PKCS#7, and 12 bytes for AES-GCM, whose ciphertext ends in a tag of 16
/// bytes.
pub struct Pkcs11Cipher<H> {
    key_handle: H,
    algorithm: CipherAlgorithm,
}

impl<H: Copy> Pkcs11Cipher<H> {
    /// The handle of the key.
    pub closed spec fn spec_key(&self) -> H {
        self.key_handle
    }

    /// The algorithm that is worked with.
    pub closed spec fn spec_algorithm(&self) -> CipherAlgorithm {
        self.algorithm
    }

    /// How the key is found by its label.
    pub fn key_query(key_label: &str) -> (r: Locking<ObjectQuery>)
        ensures
            r.next_step().spec_class() == ObjectClass::SecretKey,
            r.next_step().spec_label() == key_label@,
    {
        Pkcs11Session::find_secret_key(key_label)
    }

    /// Binds a key that was found to an algorithm.
    pub fn new(key_handle: H, algorithm: CipherAlgorithm) -> (r: Self)
        ensures
            r.spec_key() == key_handle,
            r.spec_algorithm() == algorithm,
    {
        Pkcs11Cipher { key_handle, algorithm }
    }

    /// Starts encrypting `plaintext`. Only once the session is locked does the
    /// algorithm matter.
    pub fn encrypt(&self, plaintext: &[u8]) -> (r: Locking<Result<PrefixDraw<H>>>)
        ensures
            match mode_outcome(self.spec_algorithm()) {
                Ok(mode) => {
                    &&& r.next_step() matches Ok(draw)
                    &&& draw.spec_mode() == mode
                    &&& draw.spec_key() == self.spec_key()
                    &&& draw.spec_plaintext() == plaintext@
                },
                Err(e) => r.next_step() is Err && r.next_step()->Err_0@ == e,
            },
    {
        Locking::new(
            match mode_of(self.algorithm) {
                Ok(mode) => Ok(
                    PrefixDraw { mode, key: self.key_handle, plaintext: to_vec(plaintext) },
                ),
                Err(e) => Err(e),
            },
        )
    }

    /// Starts decrypting `data`, which is an IV or nonce and the ciphertext. Only
    /// once the session is locked is the data looked at.
    pub fn decrypt(&self, data: &[u8]) -> (r: Locking<Result<TokenCall<H>>>)
        ensures
            view_outcome(r.next_step()) == decrypt_call(
                self.spec_algorithm(),
                self.spec_key(),
                data@,
            ),
    {
        let mode: AesMode = match mode_of(self.algorithm) {
            Ok(mode) => mode,
            Err(e) => return Locking::new(Err(e)),
        };
        let n: usize = mode.prefix_size();
        if data.len() < n + 16 {
            return Locking::new(
                Err(
                    Error::Crypto(
                        match mode {
                            AesMode::Cbc =>
                                "AES-CBC ciphertext too short (need IV + at least one block)".to_owned(),
                            AesMode::Gcm =>
                                "AES-GCM ciphertext too short (need nonce + tag)".to_owned(),
                        },
                    ),
                ),
            );
        }
        let kind: CallKind = match mode {
            AesMode::Cbc => CallKind::CbcDecrypt,
            AesMode::Gcm => CallKind::GcmDecrypt,
        };
        let iv: &[u8] = slice_subrange(data, 0, n);
        let ciphertext: &[u8] = slice_subrange(data, n, data.len());
        Locking::new(
            Ok(
                TokenCall {
                    kind,
                    mechanism: mode.mechanism(iv),
                    key: self.key_handle,
                    data: to_vec(ciphertext),
                },
            ),
        )
    }
}

/// The step after which the IV or nonce of an encryption is drawn.
pub struct PrefixDraw<H> {
    mode: AesMode,
    key: H,
    plaintext: Vec<u8>,
}

impl<H: Copy> PrefixDraw<H> {
    /// The mode of the encryption.
    pub closed spec fn spec_mode(&self) -> AesMode {
        self.mode
    }

    /// The handle of the key.
    pub closed spec fn spec_key(&self) -> H {
        self.key
    }

    /// The data to encrypt.
    pub closed spec fn spec_plaintext(&self) -> Seq<u8> {
        self.plaintext@
    }

    /// How many random bytes to draw.
    pub fn len(&self) -> (r: usize)
        ensures
            r == self.spec_mode().prefix_len(),
    {
        self.mode.prefix_size()
    }

    /// Takes the random bytes.
    pub fn drawn(self, reply: core::result::Result<Vec<u8>, String>) -> (r: Result<SealCall<H>>)
        requires
            reply matches Ok(iv) ==> iv@.len() == self.spec_mode().prefix_len(),
        ensures
            match reply {
                Ok(iv) => {
                    &&& r matches Ok(seal)
                    &&& seal.spec_mode() == self.spec_mode()
                    &&& seal.spec_prefix() == iv@
                    &&& seal.spec_call() == (CallView {
                        kind: self.spec_mode().encrypt_kind(),
                        mechanism: self.spec_mode().mechanism_view(iv@),
                        key: self.spec_key(),
                        data: self.spec_plaintext(),
                    })
                },
                Err(e) => r is Err && r->Err_0@ == ErrorView::Pkcs11(
                    "C_GenerateRandom failed: "@ + e@,
                ),
            },
    {
        match reply {
            Ok(iv) => {
                let kind: CallKind = match self.mode {
                    AesMode::Cbc => CallKind::CbcEncrypt,
                    AesMode::Gcm => CallKind::GcmEncrypt,
                };
                let mechanism: Mechanism = self.mode.mechanism(iv.as_slice());
                let call: TokenCall<H> = TokenCall {
                    kind,
                    mechanism,
                    key: self.key,
                    data: self.plaintext,
                };
                Ok(SealCall { mode: self.mode, prefix: iv, call })
            },
            Err(e) => Err(Error::Pkcs11(join2("C_GenerateRandom failed: ", e.as_str()))),
        }
    }
}

/// The step after which the data is encrypted.
pub struct SealCall<H> {
    mode: AesMode,
    prefix: Vec<u8>,
    call: TokenCall<H>,
}

/// What goes in front of the ciphertext. A token may replace the nonce that
/// AES-GCM was started with, so there it is the nonce as the token left it.
pub open spec fn sealed_prefix(mode: AesMode, drawn: Seq<u8>, left: Seq<u8>) -> Seq<u8> {
    match mode {
        AesMode::Cbc => drawn,
        AesMode::Gcm => left,
    }
}

impl<H> SealCall<H> {
    /// The mode of the encryption.
    pub closed spec fn spec_mode(&self) -> AesMode {
        self.mode
    }

    /// The IV or nonce that was drawn.
    pub closed spec fn spec_prefix(&self) -> Seq<u8> {
        self.prefix@
    }

    /// The call to make.
    pub closed spec fn spec_call(&self) -> CallView<H> {
        self.call@
    }

    /// The call to make.
    pub fn call(&self) -> (r: &TokenCall<H>)
        ensures
            r@ == self.spec_call(),
    {
        &self.call
    }

    /// Takes the nonce as the token left it, and the session's reply.
    pub fn finished(&self, nonce: &[u8], reply: CallReply) -> (r: Result<Vec<u8>>)
        ensures
            view_outcome(r) == (match reply_outcome(self.spec_call().kind, reply) {
                Ok(ct) => Ok(sealed_prefix(self.spec_mode(), self.spec_prefix(), nonce@) + ct),
                Err(e) => Err(e),
            }),
    {
        match self.call.finished(reply) {
            Ok(ct) => match self.mode {
                AesMode::Cbc => Ok(join(self.prefix.as_slice(), ct.as_slice())),
                AesMode::Gcm => Ok(join(nonce, ct.as_slice())),
            },
            Err(e) => Err(e),
        }
    }
}

} // verus!
