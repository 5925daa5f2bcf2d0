//! Secrets that are wiped from memory when they are dropped.
use vstd::prelude::*;

verus! {

/// Calls `zeroize` of the `zeroize` crate on a vector. Claims that it is empty
/// afterwards. That the bytes it held are overwritten is left unsaid: a vector's
/// content does not show it.
#[verifier::external_body]
pub(crate) fn wipe_vec(bytes: &mut Vec<u8>)
    ensures
        final(bytes)@ == Seq::<u8>::empty(),
    opens_invariants none
    no_unwind
{
    zeroize::Zeroize::zeroize(bytes)
}

/// Calls `zeroize` of the `zeroize` crate on a string. Claims that it is empty
/// afterwards. That the text it held is overwritten is left unsaid: a string's
/// content does not show it.
#[verifier::external_body]
pub(crate) fn wipe_string(text: &mut String)
    ensures
        final(text)@ == Seq::<char>::empty(),
    opens_invariants none
    no_unwind
{
    zeroize::Zeroize::zeroize(text)
}

/// Secret bytes.
pub struct SecretBytes {
    bytes: Vec<u8>,
}

impl View for SecretBytes {
    type V = Seq<u8>;

    closed spec fn view(&self) -> Seq<u8> {
        self.bytes@
    }
}

impl SecretBytes {
    /// Takes bytes into keeping.
    pub fn new(bytes: Vec<u8>) -> (r: SecretBytes)
        ensures
            r@ == bytes@,
    {
        SecretBytes { bytes }
    }

    /// The bytes.
    pub fn as_slice(&self) -> (r: &[u8])
        ensures
            r@ == self@,
    {
        self.bytes.as_slice()
    }

    /// Wipes the bytes.
    pub fn wipe(&mut self)
        ensures
            final(self)@ == Seq::<u8>::empty(),
        opens_invariants none
        no_unwind
    {
        wipe_vec(&mut self.bytes)
    }
}

impl Drop for SecretBytes {
    fn drop(&mut self)
        ensures
            final(self)@ == Seq::<u8>::empty(),
        opens_invariants none
        no_unwind
    {
        self.wipe()
    }
}

/// A secret text.
pub struct SecretText {
    text: String,
}

impl View for SecretText {
    type V = Seq<char>;

    closed spec fn view(&self) -> Seq<char> {
        self.text@
    }
}

impl SecretText {
    /// Takes a text into keeping.
    pub fn new(text: String) -> (r: SecretText)
        ensures
            r@ == text@,
    {
        SecretText { text }
    }

    /// The text.
    pub fn as_str(&self) -> (r: &str)
        ensures
            r@ == self@,
    {
        self.text.as_str()
    }

    /// Wipes the text.
    pub fn wipe(&mut self)
        ensures
            final(self)@ == Seq::<char>::empty(),
        opens_invariants none
        no_unwind
    {
        wipe_string(&mut self.text)
    }
}

impl Drop for SecretText {
    fn drop(&mut self)
        ensures
            final(self)@ == Seq::<char>::empty(),
        opens_invariants none
        no_unwind
    {
        self.wipe()
    }
}

} // verus!
