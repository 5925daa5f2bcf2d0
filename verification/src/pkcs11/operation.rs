//! Signing, verifying, key transport and key wrapping with keys on a token.
use crate::algorithm::{KeyTransportAlgorithm, KeyWrapAlgorithm, SignatureAlgorithm};
use crate::bytes::{option_view, to_vec};
use crate::error::{ErrorView, Result};
use crate::pkcs11::mechanism::{
    key_transport_mechanism, key_transport_outcome, keywrap_mechanism, keywrap_outcome,
    prepare_sign_data, signature_mechanism, signature_mechanism_outcome, token_data, Mechanism,
    MechanismView,
};
use crate::pkcs11::provider::Pkcs11Session;
use crate::pkcs11::request::{
    call_outcome, verify_call_outcome, CallKind, CallView, Locking, ObjectClass, ObjectQuery,
    TokenCall, VerifyCall, VerifyView,
};
use vstd::prelude::*;

verus! {

/// The call of a kind over data, once the mechanism is known.
pub open spec fn call_with<H>(
    kind: CallKind,
    mechanism: core::result::Result<MechanismView, ErrorView>,
    key: H,
    data: Seq<u8>,
) -> core::result::Result<CallView<H>, ErrorView> {
    match mechanism {
        Ok(mechanism) => Ok(CallView { kind, mechanism, key, data }),
        Err(e) => Err(e),
    }
}

/// The verification of a signature, once the mechanism is known.
pub open spec fn verify_with<H>(
    hmac: bool,
    mechanism: core::result::Result<MechanismView, ErrorView>,
    key: H,
    data: Seq<u8>,
    signature: Seq<u8>,
) -> core::result::Result<VerifyView<H>, ErrorView> {
    match mechanism {
        Ok(mechanism) => Ok(VerifyView { hmac, mechanism, key, data, signature }),
        Err(e) => Err(e),
    }
}

fn make_call<H: Copy>(kind: CallKind, mechanism: Result<Mechanism>, key: H, data: &[u8]) -> (r: Result<
    Locking<TokenCall<H>>,
>)
    ensures
        call_outcome(r) == call_with(kind, crate::error::view_outcome(mechanism), key, data@),
{
    match mechanism {
        Ok(mechanism) => Ok(Locking::new(TokenCall { kind, mechanism, key, data: to_vec(data) })),
        Err(e) => Err(e),
    }
}

fn make_verify<H: Copy>(
    hmac: bool,
    mechanism: Result<Mechanism>,
    key: H,
    data: &[u8],
    signature: &[u8],
) -> (r: Result<Locking<VerifyCall<H>>>)
    ensures
        verify_call_outcome(r) == verify_with(
            hmac,
            crate::error::view_outcome(mechanism),
            key,
            data@,
            signature@,
        ),
{
    match mechanism {
        Ok(mechanism) => Ok(
            Locking::new(
                VerifyCall {
                    hmac,
                    mechanism,
                    key,
                    data: to_vec(data),
                    signature: to_vec(signature),
                },
            ),
        ),
        Err(e) => Err(e),
    }
}

/// Signs with a private key on a token.
pub struct Pkcs11Signer<H> {
    key_handle: H,
    algorithm: SignatureAlgorithm,
}

impl<H: Copy> Pkcs11Signer<H> {
    /// The handle of the key.
    pub closed spec fn spec_key(&self) -> H {
        self.key_handle
    }

    /// The algorithm that is worked with.
    pub closed spec fn spec_algorithm(&self) -> SignatureAlgorithm {
        self.algorithm
    }

    /// How the key is found by its label.
    pub fn key_query(key_label: &str) -> (r: Locking<ObjectQuery>)
        ensures
            r.next_step().spec_class() == ObjectClass::PrivateKey,
            r.next_step().spec_label() == key_label@,
    {
        Pkcs11Session::find_private_key(key_label)
    }

    /// Binds a key that was found to an algorithm.
    pub fn new(key_handle: H, algorithm: SignatureAlgorithm) -> (r: Self)
        ensures
            r.spec_key() == key_handle,
            r.spec_algorithm() == algorithm,
    {
        Pkcs11Signer { key_handle, algorithm }
    }

    /// The algorithm that is worked with.
    pub fn algorithm(&self) -> (r: SignatureAlgorithm)
        ensures
            r == self.spec_algorithm(),
    {
        self.algorithm
    }

    /// Starts signing `data`.
    pub fn sign(&self, data: &[u8]) -> (r: Result<Locking<TokenCall<H>>>)
        ensures
            call_outcome(r) == call_with(
                CallKind::Sign,
                signature_mechanism_outcome(self.spec_algorithm()),
                self.spec_key(),
                token_data(self.spec_algorithm(), data@),
            ),
    {
        let mechanism: Result<Mechanism> = signature_mechanism(&self.algorithm);
        let sign_data: Vec<u8> = prepare_sign_data(&self.algorithm, data);
        make_call(CallKind::Sign, mechanism, self.key_handle, sign_data.as_slice())
    }
}

/// Verifies with a public key on a token.
pub struct Pkcs11Verifier<H> {
    key_handle: H,
    algorithm: SignatureAlgorithm,
}

impl<H: Copy> Pkcs11Verifier<H> {
    /// The handle of the key.
    pub closed spec fn spec_key(&self) -> H {
        self.key_handle
    }

    /// The algorithm that is worked with.
    pub closed spec fn spec_algorithm(&self) -> SignatureAlgorithm {
        self.algorithm
    }

    /// How the key is found by its label.
    pub fn key_query(key_label: &str) -> (r: Locking<ObjectQuery>)
        ensures
            r.next_step().spec_class() == ObjectClass::PublicKey,
            r.next_step().spec_label() == key_label@,
    {
        Pkcs11Session::find_public_key(key_label)
    }

    /// Binds a key that was found to an algorithm.
    pub fn new(key_handle: H, algorithm: SignatureAlgorithm) -> (r: Self)
        ensures
            r.spec_key() == key_handle,
            r.spec_algorithm() == algorithm,
    {
        Pkcs11Verifier { key_handle, algorithm }
    }

    /// The algorithm that is worked with.
    pub fn algorithm(&self) -> (r: SignatureAlgorithm)
        ensures
            r == self.spec_algorithm(),
    {
        self.algorithm
    }

    /// Starts verifying `signature` over `data`.
    pub fn verify(&self, data: &[u8], signature: &[u8]) -> (r: Result<Locking<VerifyCall<H>>>)
        ensures
            verify_call_outcome(r) == verify_with(
                false,
                signature_mechanism_outcome(self.spec_algorithm()),
                self.spec_key(),
                token_data(self.spec_algorithm(), data@),
                signature@,
            ),
    {
        let mechanism: Result<Mechanism> = signature_mechanism(&self.algorithm);
        let verify_data: Vec<u8> = prepare_sign_data(&self.algorithm, data);
        make_verify(false, mechanism, self.key_handle, verify_data.as_slice(), signature)
    }
}

/// Signs and verifies authentication codes with a secret key on a token. The
/// data goes to the token as it is.
pub struct Pkcs11HmacSigner<H> {
    key_handle: H,
    algorithm: SignatureAlgorithm,
}

impl<H: Copy> Pkcs11HmacSigner<H> {
    /// The handle of the key.
    pub closed spec fn spec_key(&self) -> H {
        self.key_handle
    }

    /// The algorithm that is worked with.
    pub closed spec fn spec_algorithm(&self) -> SignatureAlgorithm {
        self.algorithm
    }

    /// How the key is found by its label.
    pub fn key_query(key_label: &str) -> (r: Locking<ObjectQuery>)
        ensures
            r.next_step().spec_class() == ObjectClass::SecretKey,
            r.next_step().spec_label() == key_label@,
    {
        Pkcs11Session::find_secret_key(key_label)
    }

    /// Binds a key that was found to an algorithm.
    pub fn new(key_handle: H, algorithm: SignatureAlgorithm) -> (r: Self)
        ensures
            r.spec_key() == key_handle,
            r.spec_algorithm() == algorithm,
    {
        Pkcs11HmacSigner { key_handle, algorithm }
    }

    /// The algorithm that is worked with.
    pub fn algorithm(&self) -> (r: SignatureAlgorithm)
        ensures
            r == self.spec_algorithm(),
    {
        self.algorithm
    }

    /// Starts signing `data`.
    pub fn sign(&self, data: &[u8]) -> (r: Result<Locking<TokenCall<H>>>)
        ensures
            call_outcome(r) == call_with(
                CallKind::HmacSign,
                signature_mechanism_outcome(self.spec_algorithm()),
                self.spec_key(),
                data@,
            ),
    {
        make_call(
            CallKind::HmacSign,
            signature_mechanism(&self.algorithm),
            self.key_handle,
            data,
        )
    }

    /// Starts verifying `signature` over `data`.
    pub fn verify(&self, data: &[u8], signature: &[u8]) -> (r: Result<Locking<VerifyCall<H>>>)
        ensures
            verify_call_outcome(r) == verify_with(
                true,
                signature_mechanism_outcome(self.spec_algorithm()),
                self.spec_key(),
                data@,
                signature@,
            ),
    {
        make_verify(true, signature_mechanism(&self.algorithm), self.key_handle, data, signature)
    }
}

/// Decrypts with a private key on a token.
pub struct Pkcs11Decryptor<H> {
    key_handle: H,
    algorithm: KeyTransportAlgorithm,
    /// The RSA-OAEP label that goes into the mechanism of every call.
    oaep_label: Option<Vec<u8>>,
}

impl<H: Copy> Pkcs11Decryptor<H> {
    /// The handle of the key.
    pub closed spec fn spec_key(&self) -> H {
        self.key_handle
    }

    /// The algorithm that is worked with.
    pub closed spec fn spec_algorithm(&self) -> KeyTransportAlgorithm {
        self.algorithm
    }

    /// The RSA-OAEP label.
    pub closed spec fn spec_label(&self) -> Option<Seq<u8>> {
        option_view(self.oaep_label)
    }

    /// How the key is found by its label.
    pub fn key_query(key_label: &str) -> (r: Locking<ObjectQuery>)
        ensures
            r.next_step().spec_class() == ObjectClass::PrivateKey,
            r.next_step().spec_label() == key_label@,
    {
        Pkcs11Session::find_private_key(key_label)
    }

    /// Binds a key that was found to an algorithm, without an RSA-OAEP label.
    pub fn new(key_handle: H, algorithm: KeyTransportAlgorithm) -> (r: Self)
        ensures
            r.spec_key() == key_handle,
            r.spec_algorithm() == algorithm,
            r.spec_label() is None,
    {
        Self::new_with_oaep_label(key_handle, algorithm, None)
    }

    /// Binds a key that was found to an algorithm and an optional RSA-OAEP label.
    pub fn new_with_oaep_label(
        key_handle: H,
        algorithm: KeyTransportAlgorithm,
        oaep_label: Option<Vec<u8>>,
    ) -> (r: Self)
        ensures
            r.spec_key() == key_handle,
            r.spec_algorithm() == algorithm,
            r.spec_label() == option_view(oaep_label),
    {
        Pkcs11Decryptor { key_handle, algorithm, oaep_label }
    }

    /// Starts decrypting `ciphertext`.
    pub fn decrypt(&self, ciphertext: &[u8]) -> (r: Result<Locking<TokenCall<H>>>)
        ensures
            call_outcome(r) == call_with(
                CallKind::Decrypt,
                key_transport_outcome(self.spec_algorithm(), self.spec_label()),
                self.spec_key(),
                ciphertext@,
            ),
    {
        let label: Option<&[u8]> = match &self.oaep_label {
            Some(bytes) => Some(bytes.as_slice()),
            None => None,
        };
        let mechanism: Result<Mechanism> = key_transport_mechanism(&self.algorithm, label);
        make_call(CallKind::Decrypt, mechanism, self.key_handle, ciphertext)
    }
}

/// Encrypts with a public key on a token.
pub struct Pkcs11Encryptor<H> {
    key_handle: H,
    algorithm: KeyTransportAlgorithm,
    /// The RSA-OAEP label that goes into the mechanism of every call.
    oaep_label: Option<Vec<u8>>,
}

impl<H: Copy> Pkcs11Encryptor<H> {
    /// The handle of the key.
    pub closed spec fn spec_key(&self) -> H {
        self.key_handle
    }

    /// The algorithm that is worked with.
    pub closed spec fn spec_algorithm(&self) -> KeyTransportAlgorithm {
        self.algorithm
    }

    /// The RSA-OAEP label.
    pub closed spec fn spec_label(&self) -> Option<Seq<u8>> {
        option_view(self.oaep_label)
    }

    /// How the key is found by its label.
    pub fn key_query(key_label: &str) -> (r: Locking<ObjectQuery>)
        ensures
            r.next_step().spec_class() == ObjectClass::PublicKey,
            r.next_step().spec_label() == key_label@,
    {
        Pkcs11Session::find_public_key(key_label)
    }

    /// Binds a key that was found to an algorithm, without an RSA-OAEP label.
    pub fn new(key_handle: H, algorithm: KeyTransportAlgorithm) -> (r: Self)
        ensures
            r.spec_key() == key_handle,
            r.spec_algorithm() == algorithm,
            r.spec_label() is None,
    {
        Self::new_with_oaep_label(key_handle, algorithm, None)
    }

    /// Binds a key that was found to an algorithm and an optional RSA-OAEP label.
    pub fn new_with_oaep_label(
        key_handle: H,
        algorithm: KeyTransportAlgorithm,
        oaep_label: Option<Vec<u8>>,
    ) -> (r: Self)
        ensures
            r.spec_key() == key_handle,
            r.spec_algorithm() == algorithm,
            r.spec_label() == option_view(oaep_label),
    {
        Pkcs11Encryptor { key_handle, algorithm, oaep_label }
    }

    /// Starts encrypting `plaintext`.
    pub fn encrypt(&self, plaintext: &[u8]) -> (r: Result<Locking<TokenCall<H>>>)
        ensures
            call_outcome(r) == call_with(
                CallKind::Encrypt,
                key_transport_outcome(self.spec_algorithm(), self.spec_label()),
                self.spec_key(),
                plaintext@,
            ),
    {
        let label: Option<&[u8]> = match &self.oaep_label {
            Some(bytes) => Some(bytes.as_slice()),
            None => None,
        };
        let mechanism: Result<Mechanism> = key_transport_mechanism(&self.algorithm, label);
        make_call(CallKind::Encrypt, mechanism, self.key_handle, plaintext)
    }
}

/// Wraps and unwraps keys under a key on a token, with `C_Encrypt` and `C_Decrypt`.
pub struct Pkcs11KeyWrapper<H> {
    key_handle: H,
    algorithm: KeyWrapAlgorithm,
}

impl<H: Copy> Pkcs11KeyWrapper<H> {
    /// The handle of the key.
    pub closed spec fn spec_key(&self) -> H {
        self.key_handle
    }

    /// The algorithm that is worked with.
    pub closed spec fn spec_algorithm(&self) -> KeyWrapAlgorithm {
        self.algorithm
    }

    /// How the key is found by its label.
    pub fn key_query(key_label: &str) -> (r: Locking<ObjectQuery>)
        ensures
            r.next_step().spec_class() == ObjectClass::SecretKey,
            r.next_step().spec_label() == key_label@,
    {
        Pkcs11Session::find_secret_key(key_label)
    }

    /// Binds a key that was found to an algorithm.
    pub fn new(key_handle: H, algorithm: KeyWrapAlgorithm) -> (r: Self)
        ensures
            r.spec_key() == key_handle,
            r.spec_algorithm() == algorithm,
    {
        Pkcs11KeyWrapper { key_handle, algorithm }
    }

    /// Starts wrapping a key.
    pub fn wrap(&self, key_data: &[u8]) -> (r: Result<Locking<TokenCall<H>>>)
        ensures
            call_outcome(r) == call_with(
                CallKind::KeyWrap,
                keywrap_outcome(self.spec_algorithm()),
                self.spec_key(),
                key_data@,
            ),
    {
        make_call(CallKind::KeyWrap, keywrap_mechanism(&self.algorithm), self.key_handle, key_data)
    }

    /// Starts unwrapping a key.
    pub fn unwrap(&self, wrapped: &[u8]) -> (r: Result<Locking<TokenCall<H>>>)
        ensures
            call_outcome(r) == call_with(
                CallKind::KeyUnwrap,
                keywrap_outcome(self.spec_algorithm()),
                self.spec_key(),
                wrapped@,
            ),
    {
        make_call(CallKind::KeyUnwrap, keywrap_mechanism(&self.algorithm), self.key_handle, wrapped)
    }
}

} // verus!
