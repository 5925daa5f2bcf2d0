//! SLH-DSA signatures over SHA-2.
use crate::algorithm::SlhDsaVariant;
use crate::bytes::option_view;
use crate::digest::constant_time_eq;
use crate::error::{
    crypto_reply, key_reply, outcome, text_outcome, text_success, view_outcome, Error, ErrorView,
    Result,
};
use crate::key::SoftwareKey;
use crate::secret::wipe_vec;
use crate::software::context::in_context;
use crate::text::join2;
use vstd::prelude::*;
use vstd::slice::slice_subrange;

verus! {

/// The parameter sets of the `slh-dsa` crate with 16-byte hashes.
#[verifier::reject_recursive_types(N)]
#[verifier::reject_recursive_types(M)]
#[verifier::external_type_specification]
#[verifier::external_body]
pub struct ExSha2L1<N, M>(slh_dsa::Sha2L1<N, M>);

/// The parameter sets of the `slh-dsa` crate with longer hashes.
#[verifier::reject_recursive_types(N)]
#[verifier::reject_recursive_types(M)]
#[verifier::external_type_specification]
#[verifier::external_body]
pub struct ExSha2L35<N, M>(slh_dsa::Sha2L35<N, M>);

/// The end of a type-level number, which names a parameter set.
#[verifier::external_type_specification]
#[verifier::external_body]
pub struct ExUTerm(p256::elliptic_curve::generic_array::typenum::UTerm);

/// A type-level number with one more digit.
#[verifier::reject_recursive_types(U)]
#[verifier::reject_recursive_types(B)]
#[verifier::external_type_specification]
#[verifier::external_body]
pub struct ExUInt<U, B>(p256::elliptic_curve::generic_array::typenum::UInt<U, B>);

/// The digit 0 of a type-level number.
#[verifier::external_type_specification]
#[verifier::external_body]
pub struct ExB0(p256::elliptic_curve::generic_array::typenum::B0);

/// The digit 1 of a type-level number.
#[verifier::external_type_specification]
#[verifier::external_body]
pub struct ExB1(p256::elliptic_curve::generic_array::typenum::B1);

/// A parameter-set type of the `slh-dsa` crate, with the variant it stands for.
pub trait SlhDsaSet {
    spec fn variant() -> SlhDsaVariant;
}

impl SlhDsaSet for slh_dsa::Sha2_128f {
    open spec fn variant() -> SlhDsaVariant {
        SlhDsaVariant::Sha2_128f
    }
}

impl SlhDsaSet for slh_dsa::Sha2_128s {
    open spec fn variant() -> SlhDsaVariant {
        SlhDsaVariant::Sha2_128s
    }
}

impl SlhDsaSet for slh_dsa::Sha2_192f {
    open spec fn variant() -> SlhDsaVariant {
        SlhDsaVariant::Sha2_192f
    }
}

impl SlhDsaSet for slh_dsa::Sha2_192s {
    open spec fn variant() -> SlhDsaVariant {
        SlhDsaVariant::Sha2_192s
    }
}

impl SlhDsaSet for slh_dsa::Sha2_256f {
    open spec fn variant() -> SlhDsaVariant {
        SlhDsaVariant::Sha2_256f
    }
}

impl SlhDsaSet for slh_dsa::Sha2_256s {
    open spec fn variant() -> SlhDsaVariant {
        SlhDsaVariant::Sha2_256s
    }
}

impl SlhDsaVariant {
    /// The length of a hash in bytes.
    pub open spec fn hash_len(self) -> nat {
        match self {
            SlhDsaVariant::Sha2_128f => 16,
            SlhDsaVariant::Sha2_128s => 16,
            SlhDsaVariant::Sha2_192f => 24,
            SlhDsaVariant::Sha2_192s => 24,
            SlhDsaVariant::Sha2_256f => 32,
            SlhDsaVariant::Sha2_256s => 32,
        }
    }

    /// The length of a signature in bytes.
    pub open spec fn signature_len(self) -> nat {
        match self {
            SlhDsaVariant::Sha2_128f => 17088,
            SlhDsaVariant::Sha2_128s => 7856,
            SlhDsaVariant::Sha2_192f => 35664,
            SlhDsaVariant::Sha2_192s => 16224,
            SlhDsaVariant::Sha2_256f => 49856,
            SlhDsaVariant::Sha2_256s => 29792,
        }
    }
}

/// The bytes of the signing key that `from_pkcs8_der` reads from a PKCS#8
/// document; `None` where it refuses the bytes.
pub uninterp spec fn slh_dsa_pkcs8_key(variant: SlhDsaVariant, der: Seq<u8>) -> Option<Seq<u8>>;

/// The signature that `slh_dsa::SigningKey::try_sign_with_context`, without added
/// randomness, makes of the message that it puts together from context and data.
pub uninterp spec fn slh_dsa_signature(
    variant: SlhDsaVariant,
    key: Seq<u8>,
    message: Seq<u8>,
) -> Seq<u8>;

/// The bytes of the verifying key that `from_public_key_der` reads from a
/// document, or the text of its error.
pub uninterp spec fn slh_dsa_document_key(
    variant: SlhDsaVariant,
    der: Seq<u8>,
) -> core::result::Result<Seq<u8>, Seq<char>>;

/// The root that `slh_dsa::VerifyingKey::try_verify_with_context` computes from the
/// key `vk`, the message that it puts together from context and data, and `sig`.
pub uninterp spec fn slh_dsa_root(
    variant: SlhDsaVariant,
    vk: Seq<u8>,
    message: Seq<u8>,
    sig: Seq<u8>,
) -> Seq<u8>;

/// Whether `sig` is accepted for `message` under the key `vk`: the root that is
/// computed from the three is the one in the key's second half.
pub open spec fn slh_dsa_accepts(
    variant: SlhDsaVariant,
    vk: Seq<u8>,
    message: Seq<u8>,
    sig: Seq<u8>,
) -> bool {
    slh_dsa_root(variant, vk, message, sig) == slh_dsa_key_root(variant, vk)
}

/// The root in a verifying key: its second half.
pub open spec fn slh_dsa_key_root(variant: SlhDsaVariant, vk: Seq<u8>) -> Seq<u8> {
    vk.subrange(variant.hash_len() as int, 2 * variant.hash_len() as int)
}

/// The signing key that `slh_dsa::SigningKey::slh_keygen_internal` makes of its
/// three seeds, which are the first three quarters of the key.
pub uninterp spec fn slh_dsa_generated(variant: SlhDsaVariant, seeds: Seq<u8>) -> Seq<u8>;

/// Whether `key` is what key generation makes of its seeds, so that its last
/// quarter is the root of its own tree.
pub open spec fn slh_dsa_is_generated(variant: SlhDsaVariant, key: Seq<u8>) -> bool {
    key == slh_dsa_generated(variant, key.subrange(0, 3 * variant.hash_len() as int))
}

/// The verifying key inside a signing key: its second half.
pub open spec fn slh_dsa_verifying_key(variant: SlhDsaVariant, key: Seq<u8>) -> Seq<u8> {
    key.subrange(2 * variant.hash_len() as int, 4 * variant.hash_len() as int)
}

/// Calls `slh_dsa::SigningKey::from_pkcs8_der`, and `to_bytes` on what it gives.
/// Claims that the outcome is a function of the document, that a key has four
/// times the hash length, and that a document, which holds the key and more, is
/// longer.
#[verifier::external_body]
fn pkcs8_key<P>(der: &[u8]) -> (r: Option<Vec<u8>>)
    where
        P: SlhDsaSet + slh_dsa::ParameterSet,
    ensures
        option_view(r) == slh_dsa_pkcs8_key(P::variant(), der@),
        r matches Some(key) ==> key@.len() == 4 * P::variant().hash_len(),
        r is Some ==> der@.len() > 4 * P::variant().hash_len(),
{
    <slh_dsa::SigningKey::<P> as pkcs8::DecodePrivateKey>::from_pkcs8_der(der)
        .ok()
        .map(|key| key.to_bytes().to_vec())
}

/// Calls `slh_dsa::SigningKey::try_from` a slice, and `to_bytes` on what it gives.
/// Claims that exactly the strings of four times the hash length are read, each as
/// itself, and what the error's text is.
#[verifier::external_body]
fn key_from_slice<P>(bytes: &[u8]) -> (r: core::result::Result<Vec<u8>, String>)
    where
        P: SlhDsaSet + slh_dsa::ParameterSet,
    ensures
        r is Ok <==> bytes@.len() == 4 * P::variant().hash_len(),
        r matches Ok(key) ==> key@ == bytes@,
        r matches Err(e) ==> e@ == "signature error"@,
{
    slh_dsa::SigningKey::<P>::try_from(bytes)
        .map(|key| key.to_bytes().to_vec())
        .map_err(|e| e.to_string())
}

/// Calls `slh_dsa::SigningKey::try_sign_with_context` without added randomness,
/// and `to_bytes` on what it gives. Claims that exactly the contexts of at most
/// 255 bytes are taken, that context and data go into the signature as one message,
/// that the signature is a function of key and message and has the parameter set's
/// length, that it is accepted for the message under the verifying key inside a key
/// that key generation made, in that the root computed from these is the key's, and
/// what the error's text is.
#[verifier::external_body]
fn sign_with_context<P>(key: &[u8], data: &[u8], ctx: &[u8]) -> (r: core::result::Result<Vec<u8>, String>)
    where
        P: SlhDsaSet + slh_dsa::ParameterSet,
    requires
        key@.len() == 4 * P::variant().hash_len(),
    ensures
        r is Ok <==> ctx@.len() <= 255,
        r matches Ok(sig) ==> sig@ == slh_dsa_signature(
            P::variant(),
            key@,
            in_context(ctx@, data@),
        ),
        r matches Ok(sig) ==> sig@.len() == P::variant().signature_len(),
        r matches Ok(sig) ==> key@ == slh_dsa_generated(
            P::variant(),
            key@.subrange(0, 3 * P::variant().hash_len() as int),
        ) ==> slh_dsa_root(
            P::variant(),
            slh_dsa_verifying_key(P::variant(), key@),
            in_context(ctx@, data@),
            sig@,
        ) == slh_dsa_key_root(P::variant(), slh_dsa_verifying_key(P::variant(), key@)),
        r matches Err(e) ==> e@ == "signature error"@,
{
    let key = slh_dsa::SigningKey::<P>::try_from(key).unwrap();
    key.try_sign_with_context(data, ctx, None)
        .map(|sig| sig.to_bytes().to_vec())
        .map_err(|e| e.to_string())
}

/// Calls `slh_dsa::SigningKey::slh_keygen_internal`, and `to_bytes` on what it gives.
/// Claims that the key is a function of the three seeds, and has four times the hash
/// length.
#[verifier::external_body]
fn keygen<P>(sk_seed: &[u8], sk_prf: &[u8], pk_seed: &[u8]) -> (r: Vec<u8>)
    where
        P: SlhDsaSet + slh_dsa::ParameterSet,
    requires
        sk_seed@.len() == P::variant().hash_len(),
        sk_prf@.len() == P::variant().hash_len(),
        pk_seed@.len() == P::variant().hash_len(),
    ensures
        r@ == slh_dsa_generated(P::variant(), sk_seed@ + sk_prf@ + pk_seed@),
        r@.len() == 4 * P::variant().hash_len(),
{
    slh_dsa::SigningKey::<P>::slh_keygen_internal(sk_seed, sk_prf, pk_seed).to_bytes().to_vec()
}

/// Calls `slh_dsa::VerifyingKey::from_public_key_der`, and `to_bytes` on what it
/// gives. Claims that the outcome is a function of the document, and that a key
/// has twice the hash length.
#[verifier::external_body]
fn document_key<P>(der: &[u8]) -> (r: core::result::Result<Vec<u8>, String>)
    where
        P: SlhDsaSet + slh_dsa::ParameterSet,
    ensures
        text_outcome(r) == slh_dsa_document_key(P::variant(), der@),
        r matches Ok(vk) ==> vk@.len() == 2 * P::variant().hash_len(),
{
    <slh_dsa::VerifyingKey::<P> as pkcs8::DecodePublicKey>::from_public_key_der(der)
        .map(|key| key.to_bytes().to_vec())
        .map_err(|e| e.to_string())
}

/// Calls `slh_dsa::Signature::try_from` a slice, and `to_bytes` on what it gives.
/// Claims that exactly the strings of the parameter set's length are read, each as
/// itself, and what the error's text is.
#[verifier::external_body]
fn signature_from_slice<P>(bytes: &[u8]) -> (r: core::result::Result<Vec<u8>, String>)
    where
        P: SlhDsaSet + slh_dsa::ParameterSet,
    ensures
        r is Ok <==> bytes@.len() == P::variant().signature_len(),
        r matches Ok(sig) ==> sig@ == bytes@,
        r matches Err(e) ==> e@ == "signature error"@,
{
    slh_dsa::Signature::<P>::try_from(bytes)
        .map(|sig| sig.to_bytes().to_vec())
        .map_err(|e| e.to_string())
}

/// Calls `slh_dsa::VerifyingKey::try_verify_with_context`. Claims that context and
/// data are verified as one message, that a root which is a function of key, message
/// and signature is computed, that the answer is yes exactly where it is the key's
/// root, and that it is no where the context has more than 255 bytes.
#[verifier::external_body]
fn verify_with_context<P>(vk: &[u8], data: &[u8], ctx: &[u8], sig: &[u8]) -> (r: bool)
    where
        P: SlhDsaSet + slh_dsa::ParameterSet,
    requires
        vk@.len() == 2 * P::variant().hash_len(),
        sig@.len() == P::variant().signature_len(),
    ensures
        ctx@.len() <= 255 ==> r == (slh_dsa_root(
            P::variant(),
            vk@,
            in_context(ctx@, data@),
            sig@,
        ) == slh_dsa_key_root(P::variant(), vk@)),
        ctx@.len() > 255 ==> !r,
{
    let vk = slh_dsa::VerifyingKey::<P>::try_from(vk).unwrap();
    let sig = slh_dsa::Signature::<P>::try_from(sig).unwrap();
    vk.try_verify_with_context(data, ctx, &sig).is_ok()
}

/// The signing key that `private_der` holds: that of a PKCS#8 document, else the
/// bytes themselves.
pub open spec fn slh_dsa_key(variant: SlhDsaVariant, private_der: Seq<u8>) -> core::result::Result<
    Seq<u8>,
    ErrorView,
> {
    match slh_dsa_pkcs8_key(variant, private_der) {
        Some(key) => Ok(key),
        None => if private_der.len() == 4 * variant.hash_len() {
            Ok(private_der)
        } else {
            Err(
                ErrorView::Key("failed to parse SLH-DSA private key: "@ + "signature error"@),
            )
        },
    }
}

/// Loads a signing key from a PKCS#8 document or its bare bytes.
pub fn load_slh_dsa_signing_key(variant: SlhDsaVariant, private_der: &[u8]) -> (r: Result<Vec<u8>>)
    ensures
        view_outcome(r) == slh_dsa_key(variant, private_der@),
        private_der@.len() <= 4 * variant.hash_len() ==> slh_dsa_pkcs8_key(variant, private_der@)
            is None,
        r matches Ok(key) ==> key@.len() == 4 * variant.hash_len(),
{
    let parsed: Option<Vec<u8>> = match variant {
        SlhDsaVariant::Sha2_128f => pkcs8_key::<slh_dsa::Sha2_128f>(private_der),
        SlhDsaVariant::Sha2_128s => pkcs8_key::<slh_dsa::Sha2_128s>(private_der),
        SlhDsaVariant::Sha2_192f => pkcs8_key::<slh_dsa::Sha2_192f>(private_der),
        SlhDsaVariant::Sha2_192s => pkcs8_key::<slh_dsa::Sha2_192s>(private_der),
        SlhDsaVariant::Sha2_256f => pkcs8_key::<slh_dsa::Sha2_256f>(private_der),
        SlhDsaVariant::Sha2_256s => pkcs8_key::<slh_dsa::Sha2_256s>(private_der),
    };
    match parsed {
        Some(key) => Ok(key),
        None => {
            let bare: core::result::Result<Vec<u8>, String> = match variant {
                SlhDsaVariant::Sha2_128f => key_from_slice::<slh_dsa::Sha2_128f>(private_der),
                SlhDsaVariant::Sha2_128s => key_from_slice::<slh_dsa::Sha2_128s>(private_der),
                SlhDsaVariant::Sha2_192f => key_from_slice::<slh_dsa::Sha2_192f>(private_der),
                SlhDsaVariant::Sha2_192s => key_from_slice::<slh_dsa::Sha2_192s>(private_der),
                SlhDsaVariant::Sha2_256f => key_from_slice::<slh_dsa::Sha2_256f>(private_der),
                SlhDsaVariant::Sha2_256s => key_from_slice::<slh_dsa::Sha2_256s>(private_der),
            };
            key_reply("failed to parse SLH-DSA private key: ", bare)
        },
    }
}

fn hash_size(variant: SlhDsaVariant) -> (r: usize)
    ensures
        r == variant.hash_len(),
{
    match variant {
        SlhDsaVariant::Sha2_128f => 16,
        SlhDsaVariant::Sha2_128s => 16,
        SlhDsaVariant::Sha2_192f => 24,
        SlhDsaVariant::Sha2_192s => 24,
        SlhDsaVariant::Sha2_256f => 32,
        SlhDsaVariant::Sha2_256s => 32,
    }
}

/// Whether a loaded key is one that key generation made, so that what it signs can
/// be verified. It generates the key of the same seeds, which it wipes, and compares.
pub fn slh_dsa_key_is_generated(variant: SlhDsaVariant, key: &[u8]) -> (r: bool)
    requires
        key@.len() == 4 * variant.hash_len(),
    ensures
        r == slh_dsa_is_generated(variant, key@),
{
    let n: usize = hash_size(variant);
    let a: &[u8] = slice_subrange(key, 0, n);
    let b: &[u8] = slice_subrange(key, n, 2 * n);
    let c: &[u8] = slice_subrange(key, 2 * n, 3 * n);
    assert(a@ + b@ + c@ =~= key@.subrange(0, 3 * n as int));
    let mut made: Vec<u8> = match variant {
        SlhDsaVariant::Sha2_128f => keygen::<slh_dsa::Sha2_128f>(a, b, c),
        SlhDsaVariant::Sha2_128s => keygen::<slh_dsa::Sha2_128s>(a, b, c),
        SlhDsaVariant::Sha2_192f => keygen::<slh_dsa::Sha2_192f>(a, b, c),
        SlhDsaVariant::Sha2_192s => keygen::<slh_dsa::Sha2_192s>(a, b, c),
        SlhDsaVariant::Sha2_256f => keygen::<slh_dsa::Sha2_256f>(a, b, c),
        SlhDsaVariant::Sha2_256s => keygen::<slh_dsa::Sha2_256s>(a, b, c),
    };
    let same: bool = constant_time_eq(made.as_slice(), key);
    wipe_vec(&mut made);
    same
}

fn read_document(variant: SlhDsaVariant, der: &[u8]) -> (r: core::result::Result<Vec<u8>, String>)
    ensures
        text_outcome(r) == slh_dsa_document_key(variant, der@),
        r matches Ok(vk) ==> vk@.len() == 2 * variant.hash_len(),
{
    match variant {
        SlhDsaVariant::Sha2_128f => document_key::<slh_dsa::Sha2_128f>(der),
        SlhDsaVariant::Sha2_128s => document_key::<slh_dsa::Sha2_128s>(der),
        SlhDsaVariant::Sha2_192f => document_key::<slh_dsa::Sha2_192f>(der),
        SlhDsaVariant::Sha2_192s => document_key::<slh_dsa::Sha2_192s>(der),
        SlhDsaVariant::Sha2_256f => document_key::<slh_dsa::Sha2_256f>(der),
        SlhDsaVariant::Sha2_256s => document_key::<slh_dsa::Sha2_256s>(der),
    }
}

/// Whether the document `public_der` holds the verifying key inside a loaded key.
pub fn slh_dsa_public_matches(variant: SlhDsaVariant, key: &[u8], public_der: &[u8]) -> (r: bool)
    requires
        key@.len() == 4 * variant.hash_len(),
    ensures
        r == (slh_dsa_document_key(variant, public_der@) == text_success(
            slh_dsa_verifying_key(variant, key@),
        )),
{
    let n: usize = hash_size(variant);
    match read_document(variant, public_der) {
        Ok(vk) => constant_time_eq(vk.as_slice(), slice_subrange(key, 2 * n, 4 * n)),
        Err(_) => false,
    }
}

/// Signs with a loaded key, of which nothing is left afterwards.
fn sign_and_wipe(variant: SlhDsaVariant, key: &mut Vec<u8>, data: &[u8], context: &[u8]) -> (r: core::result::Result<
    Vec<u8>,
    String,
>)
    requires
        old(key)@.len() == 4 * variant.hash_len(),
    ensures
        final(key)@ == Seq::<u8>::empty(),
        r is Ok <==> context@.len() <= 255,
        r matches Ok(sig) ==> {
            let message = in_context(context@, data@);
            &&& sig@ == slh_dsa_signature(variant, old(key)@, message)
            &&& sig@.len() == variant.signature_len()
            &&& slh_dsa_is_generated(variant, old(key)@) ==> slh_dsa_accepts(
                variant,
                slh_dsa_verifying_key(variant, old(key)@),
                message,
                sig@,
            )
        },
        r matches Err(e) ==> e@ == "signature error"@,
{
    let bytes: &[u8] = key.as_slice();
    let signed: core::result::Result<Vec<u8>, String> = match variant {
        SlhDsaVariant::Sha2_128f => sign_with_context::<slh_dsa::Sha2_128f>(bytes, data, context),
        SlhDsaVariant::Sha2_128s => sign_with_context::<slh_dsa::Sha2_128s>(bytes, data, context),
        SlhDsaVariant::Sha2_192f => sign_with_context::<slh_dsa::Sha2_192f>(bytes, data, context),
        SlhDsaVariant::Sha2_192s => sign_with_context::<slh_dsa::Sha2_192s>(bytes, data, context),
        SlhDsaVariant::Sha2_256f => sign_with_context::<slh_dsa::Sha2_256f>(bytes, data, context),
        SlhDsaVariant::Sha2_256s => sign_with_context::<slh_dsa::Sha2_256s>(bytes, data, context),
    };
    wipe_vec(key);
    signed
}

/// The outcome of signing with `private_der`. The signature is accepted in the
/// same context under the verifying key inside the signing key, where that key is
/// one that key generation made. A string no longer than the bare key bytes is never
/// taken for a document.
pub open spec fn slh_dsa_private_sign_outcome(
    variant: SlhDsaVariant,
    private_der: Seq<u8>,
    data: Seq<u8>,
    ctx: Seq<u8>,
    r: core::result::Result<Seq<u8>, ErrorView>,
) -> bool {
    &&& private_der.len() <= 4 * variant.hash_len() ==> slh_dsa_pkcs8_key(
        variant,
        private_der,
    ) is None
    &&& match slh_dsa_key(variant, private_der) {
        Ok(key) => if ctx.len() <= 255 {
            let message = in_context(ctx, data);
            let sig = slh_dsa_signature(variant, key, message);
            &&& r == core::result::Result::<Seq<u8>, ErrorView>::Ok(sig)
            &&& sig.len() == variant.signature_len()
            &&& slh_dsa_is_generated(variant, key) ==> slh_dsa_accepts(
                variant,
                slh_dsa_verifying_key(variant, key),
                message,
                sig,
            )
        } else {
            r == core::result::Result::<Seq<u8>, ErrorView>::Err(
                ErrorView::Crypto("SLH-DSA sign failed: "@ + "signature error"@),
            )
        },
        Err(e) => r == core::result::Result::<Seq<u8>, ErrorView>::Err(e),
    }
}

/// Signs `data` in a context. `private_der` is a PKCS#8 document or the bare key
/// bytes. The copy of the key that was signed with is wiped.
pub fn pq_slh_dsa_sign(variant: SlhDsaVariant, private_der: &[u8], data: &[u8], context: &[u8]) -> (r: Result<
    Vec<u8>,
>)
    ensures
        slh_dsa_private_sign_outcome(variant, private_der@, data@, context@, view_outcome(r)),
{
    let mut loaded: Vec<u8> = match load_slh_dsa_signing_key(variant, private_der) {
        Ok(key) => key,
        Err(e) => return Err(e),
    };
    let signed: core::result::Result<Vec<u8>, String> = sign_and_wipe(
        variant,
        &mut loaded,
        data,
        context,
    );
    crypto_reply("SLH-DSA sign failed: ", signed)
}

/// The possible outcomes of signing with `key`.
pub open spec fn slh_dsa_sign_outcome(
    variant: SlhDsaVariant,
    key: SoftwareKey,
    data: Seq<u8>,
    ctx: Seq<u8>,
    r: core::result::Result<Seq<u8>, ErrorView>,
) -> bool {
    match key {
        SoftwareKey::PostQuantum { private_der: Some(private), .. } => slh_dsa_private_sign_outcome(
            variant,
            private@,
            data,
            ctx,
            r,
        ),
        _ => r == core::result::Result::<Seq<u8>, ErrorView>::Err(
            ErrorView::Key(variant.name_text() + " private key required for signing"@),
        ),
    }
}

/// Signs `data` in a context.
pub fn pq_slh_dsa_sign_dispatch(
    key: &SoftwareKey,
    variant: SlhDsaVariant,
    data: &[u8],
    context: &[u8],
) -> (r: Result<Vec<u8>>)
    ensures
        slh_dsa_sign_outcome(variant, *key, data@, context@, view_outcome(r)),
{
    match key {
        SoftwareKey::PostQuantum { private_der: Some(private), .. } => pq_slh_dsa_sign(
            variant,
            private.as_slice(),
            data,
            context,
        ),
        _ => Err(Error::Key(join2(variant.name(), " private key required for signing"))),
    }
}

/// The answer of verification under the document `public_der`.
pub open spec fn slh_dsa_public_verify_outcome(
    variant: SlhDsaVariant,
    public_der: Seq<u8>,
    data: Seq<u8>,
    sig: Seq<u8>,
    ctx: Seq<u8>,
) -> core::result::Result<bool, ErrorView> {
    match slh_dsa_document_key(variant, public_der) {
        Ok(vk) => if sig.len() != variant.signature_len() {
            Err(ErrorView::Crypto("invalid SLH-DSA signature: "@ + "signature error"@))
        } else {
            Ok(ctx.len() <= 255 && slh_dsa_accepts(variant, vk, in_context(ctx, data), sig))
        },
        Err(e) => Err(ErrorView::Key("failed to parse SLH-DSA public key: "@ + e)),
    }
}

/// Verifies a signature in a context under the document `public_der`.
pub fn pq_slh_dsa_verify(
    variant: SlhDsaVariant,
    public_der: &[u8],
    data: &[u8],
    sig_bytes: &[u8],
    context: &[u8],
) -> (r: Result<bool>)
    ensures
        outcome(r) == slh_dsa_public_verify_outcome(
            variant,
            public_der@,
            data@,
            sig_bytes@,
            context@,
        ),
        context@.len() > 255 ==> !(r matches Ok(true)),
{
    let parsed: core::result::Result<Vec<u8>, String> = read_document(variant, public_der);
    let key: Vec<u8> = match key_reply("failed to parse SLH-DSA public key: ", parsed) {
        Ok(vk) => vk,
        Err(e) => return Err(e),
    };
    let read: core::result::Result<Vec<u8>, String> = match variant {
        SlhDsaVariant::Sha2_128f => signature_from_slice::<slh_dsa::Sha2_128f>(sig_bytes),
        SlhDsaVariant::Sha2_128s => signature_from_slice::<slh_dsa::Sha2_128s>(sig_bytes),
        SlhDsaVariant::Sha2_192f => signature_from_slice::<slh_dsa::Sha2_192f>(sig_bytes),
        SlhDsaVariant::Sha2_192s => signature_from_slice::<slh_dsa::Sha2_192s>(sig_bytes),
        SlhDsaVariant::Sha2_256f => signature_from_slice::<slh_dsa::Sha2_256f>(sig_bytes),
        SlhDsaVariant::Sha2_256s => signature_from_slice::<slh_dsa::Sha2_256s>(sig_bytes),
    };
    let signature: Vec<u8> = match crypto_reply("invalid SLH-DSA signature: ", read) {
        Ok(sig) => sig,
        Err(e) => return Err(e),
    };
    let vk: &[u8] = key.as_slice();
    let sig: &[u8] = signature.as_slice();
    Ok(match variant {
        SlhDsaVariant::Sha2_128f => verify_with_context::<slh_dsa::Sha2_128f>(vk, data, context, sig),
        SlhDsaVariant::Sha2_128s => verify_with_context::<slh_dsa::Sha2_128s>(vk, data, context, sig),
        SlhDsaVariant::Sha2_192f => verify_with_context::<slh_dsa::Sha2_192f>(vk, data, context, sig),
        SlhDsaVariant::Sha2_192s => verify_with_context::<slh_dsa::Sha2_192s>(vk, data, context, sig),
        SlhDsaVariant::Sha2_256f => verify_with_context::<slh_dsa::Sha2_256f>(vk, data, context, sig),
        SlhDsaVariant::Sha2_256s => verify_with_context::<slh_dsa::Sha2_256s>(vk, data, context, sig),
    })
}

/// The answer of verification with `key`.
pub open spec fn slh_dsa_verify_outcome(
    variant: SlhDsaVariant,
    key: SoftwareKey,
    data: Seq<u8>,
    sig: Seq<u8>,
    ctx: Seq<u8>,
) -> core::result::Result<bool, ErrorView> {
    match key {
        SoftwareKey::PostQuantum { public_der, .. } => slh_dsa_public_verify_outcome(
            variant,
            public_der@,
            data,
            sig,
            ctx,
        ),
        _ => Err(ErrorView::Key(variant.name_text() + " key required for verification"@)),
    }
}

/// Verifies a signature in a context.
pub fn pq_slh_dsa_verify_dispatch(
    key: &SoftwareKey,
    variant: SlhDsaVariant,
    data: &[u8],
    sig_bytes: &[u8],
    context: &[u8],
) -> (r: Result<bool>)
    ensures
        outcome(r) == slh_dsa_verify_outcome(variant, *key, data@, sig_bytes@, context@),
        context@.len() > 255 ==> !(r matches Ok(true)),
{
    match key {
        SoftwareKey::PostQuantum { public_der, .. } => pq_slh_dsa_verify(
            variant,
            public_der.as_slice(),
            data,
            sig_bytes,
            context,
        ),
        _ => Err(Error::Key(join2(variant.name(), " key required for verification"))),
    }
}

} // verus!
