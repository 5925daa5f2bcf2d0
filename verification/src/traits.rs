//! The operations that keys offer, whatever backs them.
use crate::algorithm::SignatureAlgorithm;
use crate::error::Result;
use vstd::prelude::*;

verus! {

/// Signs data.
pub trait Signer: Send + Sync {
    /// Whether signing `data` gives an outcome, be it a signature or an error. It
    /// does unless an implementation says otherwise.
    open spec fn can_sign(&self, data: Seq<u8>) -> bool {
        true
    }

    /// The algorithm that is signed with.
    fn algorithm(&self) -> SignatureAlgorithm;

    /// Signs `data`.
    fn sign(&self, data: &[u8]) -> Result<Vec<u8>>
        requires
            self.can_sign(data@),
    ;
}

/// Verifies signatures.
pub trait Verifier: Send + Sync {
    /// The algorithm that is verified with.
    fn algorithm(&self) -> SignatureAlgorithm;

    /// Whether `signature` is one over `data`.
    fn verify(&self, data: &[u8], signature: &[u8]) -> Result<bool>;
}

} // verus!
