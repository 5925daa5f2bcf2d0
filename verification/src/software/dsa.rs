//! DSA signatures.
use crate::algorithm::HashAlgorithm;
use crate::bytes::{
    be_bytes, be_value, bit_len, lemma_be_bytes_of_value, lemma_bits_fit_bytes,
    lemma_minimal_length, lemma_zeros_in_front, zero_pad, zero_padded,
};
use crate::error::{outcome, view_outcome, Error, ErrorView, Result};
use crate::key::SoftwareKey;
use crate::text::{decimal, decimal_text, join2, join3};
use vstd::arithmetic::power::pow;
use vstd::prelude::*;
use vstd::slice::slice_subrange;
use vstd::string::StringExecFns;

verus! {

/// The numbers of a DSA public key.
pub ghost struct DsaNumbers {
    pub p: nat,
    pub q: nat,
    pub g: nat,
    pub y: nat,
}

/// The numbers of a verifying key.
pub uninterp spec fn dsa_verifying_numbers(key: dsa::VerifyingKey) -> DsaNumbers;

/// The numbers of a signing key's verifying key.
pub uninterp spec fn dsa_signing_numbers(key: dsa::SigningKey) -> DsaNumbers;

/// The secret number of a signing key.
pub uninterp spec fn dsa_secret_number(key: dsa::SigningKey) -> nat;

/// What `dsa::SigningKey::try_sign_digest` gives for `data`, with the hasher type
/// of `hash`, under the key of these numbers: the pair `(r, s)`, or `None` where
/// it fails.
pub uninterp spec fn dsa_signature(
    hash: HashAlgorithm,
    key: DsaNumbers,
    x: nat,
    data: Seq<u8>,
) -> Option<(nat, nat)>;

/// Whether `dsa::VerifyingKey::verify_digest`, with the hasher type of `hash`,
/// accepts the signature `(r, s)` for `data` under the key of these numbers.
pub uninterp spec fn dsa_accepts(
    hash: HashAlgorithm,
    key: DsaNumbers,
    data: Seq<u8>,
    r: nat,
    s: nat,
) -> bool;

/// Whether `n` is a prime number.
pub open spec fn is_prime(n: nat) -> bool {
    &&& n > 1
    &&& forall|d: nat| 1 < d < n ==> #[trigger] (n % d) != 0
}

/// Whether the numbers form a key pair: `q` is prime, `g` has an order that
/// divides `q`, and `y` belongs to the secret `x`.
pub open spec fn dsa_is_pair(key: DsaNumbers, x: nat) -> bool {
    &&& is_prime(key.q)
    &&& pow(key.g as int, key.q) % (key.p as int) == 1
    &&& key.y == pow(key.g as int, x) % (key.p as int)
}

/// The length in bytes of a signature's half: that of `q`.
pub open spec fn dsa_half_len(key: DsaNumbers) -> nat {
    (bit_len(key.q) + 7) / 8
}

/// The value of a call that gives the two numbers of a signature as big-endian
/// bytes.
pub open spec fn pair_success(r: core::result::Result<(Vec<u8>, Vec<u8>), String>) -> Option<
    (nat, nat),
> {
    match r {
        Ok(pair) => Some((be_value(pair.0@), be_value(pair.1@))),
        Err(_) => None,
    }
}

/// Whether `bytes` is a number between 1 and `q`, written without a leading zero
/// byte.
pub open spec fn dsa_component(bytes: Seq<u8>, q: nat) -> bool {
    &&& bytes.len() > 0
    &&& bytes[0] != 0
    &&& 0 < be_value(bytes) < q
}

/// Calls `bits` on the `q` of `dsa::VerifyingKey::components`. Claims that it is
/// the length of that number in bits.
#[verifier::external_body]
fn q_bits(key: &dsa::VerifyingKey) -> (r: usize)
    ensures
        r == bit_len(dsa_verifying_numbers(*key).q),
{
    key.components().q().bits()
}

/// Calls `dsa::SigningKey::verifying_key`. Claims only which numbers it has.
#[verifier::external_body]
fn verifying_key(key: &dsa::SigningKey) -> (r: &dsa::VerifyingKey)
    ensures
        dsa_verifying_numbers(*r) == dsa_signing_numbers(*key),
{
    key.verifying_key()
}

/// Calls `dsa::Signature::from_components` on two big-endian numbers. Claims that
/// it takes exactly those that are not zero, and what the error's text is.
#[verifier::external_body]
fn signature_from_components(r_bytes: &[u8], s_bytes: &[u8]) -> (r: core::result::Result<(), String>)
    ensures
        r is Ok <==> (be_value(r_bytes@) != 0 && be_value(s_bytes@) != 0),
        r matches Err(e) ==> e@ == "signature error"@,
{
    let (r, s) = (dsa::BigUint::from_bytes_be(r_bytes), dsa::BigUint::from_bytes_be(s_bytes));
    dsa::Signature::from_components(r, s).map(|_| ()).map_err(|e| e.to_string())
}

/// Calls `dsa::SigningKey::try_sign_digest` with a `sha1::Sha1` over `data`. Claims
/// that the outcome is a function of the key's numbers and the data, that both
/// numbers of a signature lie between 1 and `q` and are written without a leading
/// zero byte, that a signature is accepted where the numbers form a key pair, and
/// what the error's text is. The call searches for a nonce of as many bytes as
/// `q` has full ones, so it needs one at least.
#[verifier::external_body]
fn sign_sha1(key: &dsa::SigningKey, data: &[u8]) -> (r: core::result::Result<(Vec<u8>, Vec<u8>), String>)
    requires
        bit_len(dsa_signing_numbers(*key).q) >= 8,
    ensures
        pair_success(r) == dsa_signature(
            HashAlgorithm::Sha1,
            dsa_signing_numbers(*key),
            dsa_secret_number(*key),
            data@,
        ),
        r matches Ok(pair) ==> dsa_component(pair.0@, dsa_signing_numbers(*key).q),
        r matches Ok(pair) ==> dsa_component(pair.1@, dsa_signing_numbers(*key).q),
        r matches Ok(pair) ==> dsa_is_pair(dsa_signing_numbers(*key), dsa_secret_number(*key))
            ==> dsa_accepts(
            HashAlgorithm::Sha1,
            dsa_signing_numbers(*key),
            data@,
            be_value(pair.0@),
            be_value(pair.1@),
        ),
        r matches Err(e) ==> e@ == "signature error"@,
{
    let hasher = <sha1::Sha1 as ::digest::Digest>::new_with_prefix(data);
    signature::DigestSigner::<sha1::Sha1, dsa::Signature>::try_sign_digest(key, hasher)
        .map(|sig| (sig.r().to_bytes_be(), sig.s().to_bytes_be()))
        .map_err(|e| e.to_string())
}

/// Calls `dsa::VerifyingKey::verify_digest` with a `sha1::Sha1` over `data`. Claims
/// that the answer is a function of the key's numbers, the data and the
/// signature's numbers.
#[verifier::external_body]
fn verify_sha1(key: &dsa::VerifyingKey, data: &[u8], r_bytes: &[u8], s_bytes: &[u8]) -> (r: bool)
    requires
        be_value(r_bytes@) != 0 && be_value(s_bytes@) != 0,
    ensures
        r == dsa_accepts(
            HashAlgorithm::Sha1,
            dsa_verifying_numbers(*key),
            data@,
            be_value(r_bytes@),
            be_value(s_bytes@),
        ),
{
    let (r, s) = (dsa::BigUint::from_bytes_be(r_bytes), dsa::BigUint::from_bytes_be(s_bytes));
    let sig = dsa::Signature::from_components(r, s).unwrap();
    let hasher = <sha1::Sha1 as ::digest::Digest>::new_with_prefix(data);
    signature::DigestVerifier::verify_digest(key, hasher, &sig).is_ok()
}

/// Calls `dsa::SigningKey::try_sign_digest` with a `sha2::Sha256` over `data`. Claims
/// that the outcome is a function of the key's numbers and the data, that both
/// numbers of a signature lie between 1 and `q` and are written without a leading
/// zero byte, that a signature is accepted where the numbers form a key pair, and
/// what the error's text is. The call searches for a nonce of as many bytes as
/// `q` has full ones, so it needs one at least.
#[verifier::external_body]
fn sign_sha256(key: &dsa::SigningKey, data: &[u8]) -> (r: core::result::Result<(Vec<u8>, Vec<u8>), String>)
    requires
        bit_len(dsa_signing_numbers(*key).q) >= 8,
    ensures
        pair_success(r) == dsa_signature(
            HashAlgorithm::Sha256,
            dsa_signing_numbers(*key),
            dsa_secret_number(*key),
            data@,
        ),
        r matches Ok(pair) ==> dsa_component(pair.0@, dsa_signing_numbers(*key).q),
        r matches Ok(pair) ==> dsa_component(pair.1@, dsa_signing_numbers(*key).q),
        r matches Ok(pair) ==> dsa_is_pair(dsa_signing_numbers(*key), dsa_secret_number(*key))
            ==> dsa_accepts(
            HashAlgorithm::Sha256,
            dsa_signing_numbers(*key),
            data@,
            be_value(pair.0@),
            be_value(pair.1@),
        ),
        r matches Err(e) ==> e@ == "signature error"@,
{
    let hasher = <sha2::Sha256 as ::digest::Digest>::new_with_prefix(data);
    signature::DigestSigner::<sha2::Sha256, dsa::Signature>::try_sign_digest(key, hasher)
        .map(|sig| (sig.r().to_bytes_be(), sig.s().to_bytes_be()))
        .map_err(|e| e.to_string())
}

/// Calls `dsa::VerifyingKey::verify_digest` with a `sha2::Sha256` over `data`. Claims
/// that the answer is a function of the key's numbers, the data and the
/// signature's numbers.
#[verifier::external_body]
fn verify_sha256(key: &dsa::VerifyingKey, data: &[u8], r_bytes: &[u8], s_bytes: &[u8]) -> (r: bool)
    requires
        be_value(r_bytes@) != 0 && be_value(s_bytes@) != 0,
    ensures
        r == dsa_accepts(
            HashAlgorithm::Sha256,
            dsa_verifying_numbers(*key),
            data@,
            be_value(r_bytes@),
            be_value(s_bytes@),
        ),
{
    let (r, s) = (dsa::BigUint::from_bytes_be(r_bytes), dsa::BigUint::from_bytes_be(s_bytes));
    let sig = dsa::Signature::from_components(r, s).unwrap();
    let hasher = <sha2::Sha256 as ::digest::Digest>::new_with_prefix(data);
    signature::DigestVerifier::verify_digest(key, hasher, &sig).is_ok()
}

/// Whether DSA is offered with `hash`.
pub open spec fn dsa_supports(hash: HashAlgorithm) -> bool {
    hash == HashAlgorithm::Sha1 || hash == HashAlgorithm::Sha256
}

/// Whether signing gives an outcome: where a private key signs with an offered
/// hash, its `q` must have a full byte.
pub open spec fn dsa_can_sign(hash: HashAlgorithm, key: SoftwareKey) -> bool {
    key matches SoftwareKey::Dsa { private: Some(sk), .. } ==> dsa_supports(hash) ==> bit_len(
        dsa_signing_numbers(sk).q,
    ) >= 8
}

/// A signature as bytes: `r` and `s`, each as long as `q`.
pub open spec fn dsa_raw(key: DsaNumbers, r: nat, s: nat) -> Seq<u8> {
    be_bytes(r, dsa_half_len(key)) + be_bytes(s, dsa_half_len(key))
}

/// The possible outcomes of signing. The public key accepts the signature where
/// the key's numbers form a pair.
pub open spec fn dsa_sign_outcome(
    hash: HashAlgorithm,
    key: SoftwareKey,
    data: Seq<u8>,
    out: core::result::Result<Seq<u8>, ErrorView>,
) -> bool {
    match key {
        SoftwareKey::Dsa { private: Some(sk), .. } => {
            let numbers = dsa_signing_numbers(sk);
            let x = dsa_secret_number(sk);
            if !dsa_supports(hash) {
                out == core::result::Result::<Seq<u8>, ErrorView>::Err(
                    ErrorView::UnsupportedAlgorithm("DSA with "@ + hash.debug_text()),
                )
            } else {
                match dsa_signature(hash, numbers, x, data) {
                    Some((r, s)) => {
                        &&& out == core::result::Result::<Seq<u8>, ErrorView>::Ok(
                            dsa_raw(numbers, r, s),
                        )
                        &&& 0 < r < numbers.q
                        &&& 0 < s < numbers.q
                        &&& dsa_is_pair(numbers, x) ==> dsa_accepts(hash, numbers, data, r, s)
                    },
                    None => out == core::result::Result::<Seq<u8>, ErrorView>::Err(
                        ErrorView::Crypto("DSA sign: "@ + "signature error"@),
                    ),
                }
            }
        },
        _ => out == core::result::Result::<Seq<u8>, ErrorView>::Err(
            ErrorView::Key("DSA private key required"@),
        ),
    }
}

fn half_len(key: &dsa::VerifyingKey) -> (r: usize)
    ensures
        r == dsa_half_len(dsa_verifying_numbers(*key)),
        2 * r <= usize::MAX,
{
    let bits: usize = q_bits(key);
    bits / 8 + (bits % 8 + 7) / 8
}

/// Writes a signature's numbers as `r` and `s`, `q_len` bytes each.
pub fn dsa_sig_to_raw(q_len: usize, r_bytes: &[u8], s_bytes: &[u8]) -> (out: Vec<u8>)
    requires
        r_bytes@.len() <= q_len,
        s_bytes@.len() <= q_len,
    ensures
        out@ == be_bytes(be_value(r_bytes@), q_len as nat) + be_bytes(
            be_value(s_bytes@),
            q_len as nat,
        ),
{
    let first: Vec<u8> = zero_pad(r_bytes, q_len);
    let second: Vec<u8> = zero_pad(s_bytes, q_len);
    proof {
        lemma_padded_value(r_bytes@, q_len as nat);
        lemma_padded_value(s_bytes@, q_len as nat);
    }
    crate::bytes::join(first.as_slice(), second.as_slice())
}

/// A number padded to `n` bytes is the number written with `n` bytes.
proof fn lemma_padded_value(bytes: Seq<u8>, n: nat)
    requires
        bytes.len() <= n,
    ensures
        zero_padded(bytes, n) == be_bytes(be_value(bytes), n),
{
    let padded = zero_padded(bytes, n);
    if bytes.len() < n {
        lemma_zeros_in_front((n - bytes.len()) as nat, bytes);
    }
    lemma_be_bytes_of_value(padded);
}

/// A number below `q` takes no more bytes than `q` does.
proof fn lemma_component_len(bytes: Seq<u8>, key: DsaNumbers)
    requires
        dsa_component(bytes, key.q),
    ensures
        bytes.len() <= dsa_half_len(key),
{
    lemma_bits_fit_bytes(key.q, dsa_half_len(key));
    lemma_minimal_length(bytes, dsa_half_len(key));
}

/// Signs `data`. There is no outcome exactly where `q` is shorter than a byte.
pub fn dsa_checked_sign(key: &SoftwareKey, hash: HashAlgorithm, data: &[u8]) -> (r: Option<
    Result<Vec<u8>>,
>)
    ensures
        r is Some <==> dsa_can_sign(hash, *key),
        r matches Some(o) ==> dsa_sign_outcome(hash, *key, data@, view_outcome(o)),
{
    let sk: &dsa::SigningKey = match key {
        SoftwareKey::Dsa { private: Some(sk), .. } => sk,
        _ => return Some(Err(Error::Key("DSA private key required".to_owned()))),
    };
    if hash != HashAlgorithm::Sha1 && hash != HashAlgorithm::Sha256 {
        return Some(Err(Error::UnsupportedAlgorithm(join2("DSA with ", hash.debug_name()))));
    }
    let vk: &dsa::VerifyingKey = verifying_key(sk);
    if q_bits(vk) < 8 {
        return None;
    }
    let signed: core::result::Result<(Vec<u8>, Vec<u8>), String> = match hash {
        HashAlgorithm::Sha1 => sign_sha1(sk, data),
        _ => sign_sha256(sk, data),
    };
    match signed {
        Ok((r_bytes, s_bytes)) => {
            proof {
                lemma_component_len(r_bytes@, dsa_signing_numbers(*sk));
                lemma_component_len(s_bytes@, dsa_signing_numbers(*sk));
            }
            Some(Ok(dsa_sig_to_raw(half_len(vk), r_bytes.as_slice(), s_bytes.as_slice())))
        },
        Err(e) => Some(Err(Error::Crypto(join2("DSA sign: ", e.as_str())))),
    }
}

/// Signs `data`. The signature is `r` and `s`, each as long as `q`.
pub fn dsa_sign(key: &SoftwareKey, hash: HashAlgorithm, data: &[u8]) -> (r: Result<Vec<u8>>)
    requires
        dsa_can_sign(hash, *key),
    ensures
        dsa_sign_outcome(hash, *key, data@, view_outcome(r)),
{
    match dsa_checked_sign(key, hash, data) {
        Some(r) => r,
        None => vstd::pervasive::unreached(),
    }
}

/// What is said of a signature of the wrong length.
pub open spec fn dsa_length_text(q_len: nat, got: nat) -> Seq<char> {
    "DSA signature must be "@ + decimal_text(2 * q_len) + " bytes (2 * q_len="@ + decimal_text(
        q_len,
    ) + "), got "@ + decimal_text(got)
}

/// The two numbers of a signature of twice `q_len` bytes; the error where the
/// length differs or a number is zero.
pub open spec fn dsa_raw_numbers(q_len: nat, rs: Seq<u8>) -> core::result::Result<
    (nat, nat),
    ErrorView,
> {
    let r = be_value(rs.subrange(0, q_len as int));
    let s = be_value(rs.subrange(q_len as int, 2 * q_len as int));
    if rs.len() != 2 * q_len {
        Err(ErrorView::Crypto(dsa_length_text(q_len, rs.len())))
    } else if r == 0 || s == 0 {
        Err(ErrorView::Crypto("invalid DSA signature: "@ + "signature error"@))
    } else {
        Ok((r, s))
    }
}

/// Reads a signature from `r` and `s`, `q_len` bytes each, which is how long they
/// are given back.
pub fn raw_to_dsa_sig(q_len: usize, rs: &[u8]) -> (out: Result<(Vec<u8>, Vec<u8>)>)
    requires
        2 * q_len <= usize::MAX,
    ensures
        match out {
            Ok(pair) => dsa_raw_numbers(q_len as nat, rs@) == core::result::Result::<
                (nat, nat),
                ErrorView,
            >::Ok((be_value(pair.0@), be_value(pair.1@))),
            Err(e) => dsa_raw_numbers(q_len as nat, rs@) == core::result::Result::<
                (nat, nat),
                ErrorView,
            >::Err(e@),
        },
        out matches Ok(pair) ==> pair.0@.len() == q_len && pair.1@.len() == q_len,
{
    if rs.len() != q_len * 2 {
        let twice: String = decimal(q_len * 2);
        let head: String = join3("DSA signature must be ", twice.as_str(), " bytes (2 * q_len=");
        let once: String = decimal(q_len);
        let got: String = decimal(rs.len());
        let message: String = head.concat(once.as_str()).concat("), got ").concat(got.as_str());
        return Err(Error::Crypto(message));
    }
    let r_bytes: &[u8] = slice_subrange(rs, 0, q_len);
    let s_bytes: &[u8] = slice_subrange(rs, q_len, rs.len());
    match signature_from_components(r_bytes, s_bytes) {
        Ok(_) => Ok((crate::bytes::to_vec(r_bytes), crate::bytes::to_vec(s_bytes))),
        Err(e) => Err(Error::Crypto(join2("invalid DSA signature: ", e.as_str()))),
    }
}

/// The numbers of the public key that `key` verifies with: those of its private
/// key where it has one, else of the stored one.
pub open spec fn dsa_verifying(key: SoftwareKey) -> Option<DsaNumbers> {
    match key {
        SoftwareKey::Dsa { private: Some(sk), .. } => Some(dsa_signing_numbers(sk)),
        SoftwareKey::Dsa { public, .. } => Some(dsa_verifying_numbers(public)),
        _ => None,
    }
}

/// The answer of verification.
pub open spec fn dsa_verify_outcome(
    hash: HashAlgorithm,
    key: SoftwareKey,
    data: Seq<u8>,
    sig: Seq<u8>,
) -> core::result::Result<bool, ErrorView> {
    match dsa_verifying(key) {
        Some(numbers) => match dsa_raw_numbers(dsa_half_len(numbers), sig) {
            Ok((r, s)) => if dsa_supports(hash) {
                Ok(dsa_accepts(hash, numbers, data, r, s))
            } else {
                Err(ErrorView::UnsupportedAlgorithm("DSA with "@ + hash.debug_text()))
            },
            Err(e) => Err(e),
        },
        None => Err(ErrorView::Key("DSA key required"@)),
    }
}

/// Verifies a signature.
pub fn dsa_verify(key: &SoftwareKey, hash: HashAlgorithm, data: &[u8], sig_bytes: &[u8]) -> (r: Result<
    bool,
>)
    ensures
        outcome(r) == dsa_verify_outcome(hash, *key, data@, sig_bytes@),
{
    let vk: &dsa::VerifyingKey = match key {
        SoftwareKey::Dsa { private: Some(sk), .. } => verifying_key(sk),
        SoftwareKey::Dsa { public, .. } => public,
        _ => return Err(Error::Key("DSA key required".to_owned())),
    };
    let q_len: usize = half_len(vk);
    let (r_bytes, s_bytes): (Vec<u8>, Vec<u8>) = match raw_to_dsa_sig(q_len, sig_bytes) {
        Ok(pair) => pair,
        Err(e) => return Err(e),
    };
    match hash {
        HashAlgorithm::Sha1 => Ok(verify_sha1(vk, data, r_bytes.as_slice(), s_bytes.as_slice())),
        HashAlgorithm::Sha256 => Ok(
            verify_sha256(vk, data, r_bytes.as_slice(), s_bytes.as_slice()),
        ),
        _ => Err(Error::UnsupportedAlgorithm(join2("DSA with ", hash.debug_name()))),
    }
}

} // verus!
