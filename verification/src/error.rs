//! The library's error type.
use crate::text::join2;
use vstd::prelude::*;

verus! {

/// What can go wrong. Each variant carries a message for people.
#[derive(Debug)]
pub enum Error {
    /// The key does not fit the operation, or cannot be read.
    Key(String),
    /// A cryptographic operation failed, or its input is malformed.
    Crypto(String),
    /// The algorithm is known but not offered here.
    UnsupportedAlgorithm(String),
    /// The PKCS#11 token or its session reported a failure.
    Pkcs11(String),
}

/// The mathematical content of an [`Error`].
#[verifier::ext_equal]
pub ghost enum ErrorView {
    Key(Seq<char>),
    Crypto(Seq<char>),
    UnsupportedAlgorithm(Seq<char>),
    Pkcs11(Seq<char>),
}

impl View for Error {
    type V = ErrorView;

    open spec fn view(&self) -> ErrorView {
        match self {
            Error::Key(m) => ErrorView::Key(m@),
            Error::Crypto(m) => ErrorView::Crypto(m@),
            Error::UnsupportedAlgorithm(m) => ErrorView::UnsupportedAlgorithm(m@),
            Error::Pkcs11(m) => ErrorView::Pkcs11(m@),
        }
    }
}

/// The library's results.
pub type Result<T> = core::result::Result<T, Error>;

/// A result with its error taken by its content.
pub open spec fn outcome<T>(r: Result<T>) -> core::result::Result<T, ErrorView> {
    match r {
        Ok(v) => Ok(v),
        Err(e) => Err(e@),
    }
}

/// A result with its value and its error taken by their contents.
pub open spec fn view_outcome<T: View>(r: Result<T>) -> core::result::Result<T::V, ErrorView> {
    match r {
        Ok(v) => Ok(v@),
        Err(e) => Err(e@),
    }
}

/// A call that gives bytes or the text of an error, by its content.
pub open spec fn text_outcome(r: core::result::Result<Vec<u8>, String>) -> core::result::Result<
    Seq<u8>,
    Seq<char>,
> {
    match r {
        Ok(v) => Ok(v@),
        Err(e) => Err(e@),
    }
}

/// The successful outcome of such a call.
pub open spec fn text_success(bytes: Seq<u8>) -> core::result::Result<Seq<u8>, Seq<char>> {
    Ok(bytes)
}

/// Takes what an outside operation gave: its failure is a [`Error::Crypto`] with
/// the text behind `label`.
pub fn crypto_reply(label: &str, reply: core::result::Result<Vec<u8>, String>) -> (r: Result<
    Vec<u8>,
>)
    ensures
        view_outcome(r) == (match reply {
            Ok(bytes) => Ok(bytes@),
            Err(e) => Err(ErrorView::Crypto(label@ + e@)),
        }),
{
    match reply {
        Ok(bytes) => Ok(bytes),
        Err(e) => Err(Error::Crypto(join2(label, e.as_str()))),
    }
}

/// Takes what an outside key reader gave: its failure is a [`Error::Key`] with the
/// text behind `label`.
pub fn key_reply(label: &str, reply: core::result::Result<Vec<u8>, String>) -> (r: Result<Vec<u8>>)
    ensures
        view_outcome(r) == (match reply {
            Ok(bytes) => Ok(bytes@),
            Err(e) => Err(ErrorView::Key(label@ + e@)),
        }),
{
    match reply {
        Ok(bytes) => Ok(bytes),
        Err(e) => Err(Error::Key(join2(label, e.as_str()))),
    }
}

impl ErrorView {
    /// The text that a user sees.
    pub open spec fn text(self) -> Seq<char> {
        match self {
            ErrorView::Key(m) => "key error: "@ + m,
            ErrorView::Crypto(m) => "crypto error: "@ + m,
            ErrorView::UnsupportedAlgorithm(m) => "unsupported algorithm: "@ + m,
            ErrorView::Pkcs11(m) => "PKCS#11 error: "@ + m,
        }
    }
}

impl Error {
    /// The text that a user sees: the kind of failure, then the message.
    pub fn to_string(&self) -> (r: String)
        ensures
            r@ == self@.text(),
    {
        match self {
            Error::Key(m) => join2("key error: ", m.as_str()),
            Error::Crypto(m) => join2("crypto error: ", m.as_str()),
            Error::UnsupportedAlgorithm(m) => join2("unsupported algorithm: ", m.as_str()),
            Error::Pkcs11(m) => join2("PKCS#11 error: ", m.as_str()),
        }
    }
}

} // verus!
