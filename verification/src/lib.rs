//! Signing, verification and key-management logic over RustCrypto primitives
//! and PKCS#11 tokens.
//!
//! [`software`] holds the signer and verifier that work on key material in
//! memory. [`pkcs11`] holds the decisions of the token backend: which
//! mechanism, template and data go to the token, and what its replies mean.
pub mod algorithm;
pub mod bytes;
pub mod digest;
pub mod error;
pub mod key;
pub mod key_laws;
pub mod laws;
pub mod pkcs11;
pub mod secret;
pub mod software;
pub mod text;
pub mod traits;
