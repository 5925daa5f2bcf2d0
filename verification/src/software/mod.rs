//! Signing and verification with key material in memory.
pub mod context;
pub mod dsa;
pub mod ecdsa;
pub mod ed25519;
pub mod hmac;
pub mod laws;
pub mod ml_dsa;
pub mod pq_laws;
pub mod rsa;
pub mod sign;
pub mod signer_laws;
pub mod slh_dsa;
