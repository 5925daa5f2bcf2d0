//! ML-DSA signatures and keys.
use crate::algorithm::{MlDsaVariant, PqAlgorithm};
use crate::bytes::{option_view, to_vec};
use crate::error::{
    crypto_reply, key_reply, outcome, text_outcome, text_success, view_outcome, Error, ErrorView,
    Result,
};
use crate::key::SoftwareKey;
use crate::secret::wipe_vec;
use crate::software::context::in_context;
use crate::text::{decimal, decimal_text, join2, join3};
use vstd::array::array_as_slice;
use vstd::prelude::*;

verus! {

/// The parameter set `MlDsa44` of the `ml-dsa` crate.
#[verifier::external_type_specification]
#[verifier::external_body]
pub struct ExMlDsa44(ml_dsa::MlDsa44);

/// The parameter set `MlDsa65` of the `ml-dsa` crate.
#[verifier::external_type_specification]
#[verifier::external_body]
pub struct ExMlDsa65(ml_dsa::MlDsa65);

/// The parameter set `MlDsa87` of the `ml-dsa` crate.
#[verifier::external_type_specification]
#[verifier::external_body]
pub struct ExMlDsa87(ml_dsa::MlDsa87);

/// A parameter-set type of the `ml-dsa` crate, with the variant it stands for.
pub trait MlDsaSet {
    spec fn variant() -> MlDsaVariant;
}

impl MlDsaSet for ml_dsa::MlDsa44 {
    open spec fn variant() -> MlDsaVariant {
        MlDsaVariant::MlDsa44
    }
}

impl MlDsaSet for ml_dsa::MlDsa65 {
    open spec fn variant() -> MlDsaVariant {
        MlDsaVariant::MlDsa65
    }
}

impl MlDsaSet for ml_dsa::MlDsa87 {
    open spec fn variant() -> MlDsaVariant {
        MlDsaVariant::MlDsa87
    }
}

impl MlDsaVariant {
    /// The length of a signature in bytes.
    pub open spec fn signature_len(self) -> nat {
        match self {
            MlDsaVariant::MlDsa44 => 2420,
            MlDsaVariant::MlDsa65 => 3309,
            MlDsaVariant::MlDsa87 => 4627,
        }
    }

    /// The length in bytes of the challenge that a signature starts with.
    pub open spec fn challenge_len(self) -> nat {
        match self {
            MlDsaVariant::MlDsa44 => 32,
            MlDsaVariant::MlDsa65 => 48,
            MlDsaVariant::MlDsa87 => 64,
        }
    }

    /// The length of a verifying key in bytes.
    pub open spec fn verifying_key_len(self) -> nat {
        match self {
            MlDsaVariant::MlDsa44 => 1312,
            MlDsaVariant::MlDsa65 => 1952,
            MlDsaVariant::MlDsa87 => 2592,
        }
    }
}

/// The seed that `from_pkcs8_der` reads from a PKCS#8 document; `None` where it
/// refuses the bytes.
pub uninterp spec fn ml_dsa_pkcs8_seed(variant: MlDsaVariant, der: Seq<u8>) -> Option<Seq<u8>>;

/// The encoded verifying key that `seed` expands to.
pub uninterp spec fn ml_dsa_verifying_key(variant: MlDsaVariant, seed: Seq<u8>) -> Seq<u8>;

/// What `to_public_key_der` gives for the verifying key of `seed`: a document or
/// the text of an error.
pub uninterp spec fn ml_dsa_public_document(
    variant: MlDsaVariant,
    seed: Seq<u8>,
) -> core::result::Result<Seq<u8>, Seq<char>>;

/// The encoded verifying key that `from_public_key_der` reads from a document, or
/// the text of its error.
pub uninterp spec fn ml_dsa_document_key(
    variant: MlDsaVariant,
    der: Seq<u8>,
) -> core::result::Result<Seq<u8>, Seq<char>>;

/// Whether `ml_dsa::Signature::decode` reads `sig`.
pub uninterp spec fn ml_dsa_decodes(variant: MlDsaVariant, sig: Seq<u8>) -> bool;

/// The challenge that `ml_dsa::VerifyingKey::verify_with_context` computes: a hash of
/// the encoded key `vk`, of the message that it puts together from context and data,
/// and of what it recovers from `sig`.
pub uninterp spec fn ml_dsa_challenge(
    variant: MlDsaVariant,
    vk: Seq<u8>,
    message: Seq<u8>,
    sig: Seq<u8>,
) -> Seq<u8>;

/// Whether `sig` is accepted for `message` under the encoded key `vk`: it starts with
/// the challenge that is computed from the three.
pub open spec fn ml_dsa_accepts(
    variant: MlDsaVariant,
    vk: Seq<u8>,
    message: Seq<u8>,
    sig: Seq<u8>,
) -> bool {
    ml_dsa_challenge(variant, vk, message, sig) == sig.subrange(
        0,
        variant.challenge_len() as int,
    )
}

/// Calls `ml_dsa::SigningKey::from_pkcs8_der`, which also reads the documents of
/// expanded signing keys, and `to_seed` on what it gives. Claims that the outcome
/// is a function of the document, that a seed has 32 bytes, and that a document,
/// which holds the seed and more, is longer.
#[verifier::external_body]
fn pkcs8_seed<P>(der: &[u8]) -> (r: Option<Vec<u8>>)
    where
        P: MlDsaSet + ml_dsa::MlDsaParams + pkcs8::spki::AssociatedAlgorithmIdentifier<
            Params = pkcs8::der::AnyRef<'static>,
        >,
    ensures
        option_view(r) == ml_dsa_pkcs8_seed(P::variant(), der@),
        r matches Some(seed) ==> seed@.len() == 32,
        r is Some ==> der@.len() > 32,
{
    <ml_dsa::SigningKey::<P> as pkcs8::DecodePrivateKey>::from_pkcs8_der(der)
        .ok()
        .map(|key| key.to_seed().to_vec())
}

/// Calls `ml_dsa::ExpandedSigningKey::sign_randomized` with the system's random
/// numbers, on the key that `seed` expands to, and `encode` on what it gives.
/// Claims that a context of more than 255 bytes is refused, that a signature has
/// the parameter set's length, decodes, and is accepted under the seed's verifying
/// key for the message of context and data, in that it starts with the challenge
/// computed from these, and what the error's text is.
#[verifier::external_body]
fn sign_randomized<P>(seed: &[u8], data: &[u8], ctx: &[u8]) -> (r: core::result::Result<Vec<u8>, String>)
    where
        P: MlDsaSet + ml_dsa::MlDsaParams,
    requires
        seed@.len() == 32,
    ensures
        ctx@.len() > 255 ==> r is Err,
        r matches Ok(sig) ==> sig@.len() == P::variant().signature_len(),
        r matches Ok(sig) ==> ml_dsa_decodes(P::variant(), sig@),
        r matches Ok(sig) ==> ml_dsa_challenge(
            P::variant(),
            ml_dsa_verifying_key(P::variant(), seed@),
            in_context(ctx@, data@),
            sig@,
        ) == sig@.subrange(0, P::variant().challenge_len() as int),
        r matches Err(e) ==> e@ == "signature error"@,
{
    let seed = ml_dsa::Seed::try_from(seed).unwrap();
    ml_dsa::ExpandedSigningKey::<P>::from_seed(&seed)
        .sign_randomized(data, ctx, &mut getrandom::SysRng)
        .map(|sig| sig.encode().to_vec())
        .map_err(|e| e.to_string())
}

/// Calls `to_public_key_der` on the `ml_dsa::VerifyingKey` that `seed` expands to.
/// Claims that the outcome is a function of the seed, that the document is read back
/// as that key, and that it, which holds the key and more, is longer.
#[verifier::external_body]
fn public_document<P>(seed: &[u8]) -> (r: core::result::Result<Vec<u8>, String>)
    where
        P: MlDsaSet + ml_dsa::MlDsaParams + pkcs8::spki::AssociatedAlgorithmIdentifier<
            Params = pkcs8::der::AnyRef<'static>,
        >,
    requires
        seed@.len() == 32,
    ensures
        text_outcome(r) == ml_dsa_public_document(P::variant(), seed@),
        r matches Ok(der) ==> ml_dsa_document_key(P::variant(), der@)
            == text_success(ml_dsa_verifying_key(P::variant(), seed@)),
        r matches Ok(der) ==> der@.len() > P::variant().verifying_key_len(),
{
    let seed = ml_dsa::Seed::try_from(seed).unwrap();
    let key = ml_dsa::ExpandedSigningKey::<P>::from_seed(&seed).verifying_key();
    pkcs8::EncodePublicKey::to_public_key_der(&key)
        .map(|der| der.as_bytes().to_vec())
        .map_err(|e| e.to_string())
}

/// Calls `ml_dsa::VerifyingKey::from_public_key_der`, and `encode` on what it
/// gives. Claims that the outcome is a function of the document, and that a key
/// has the parameter set's length.
#[verifier::external_body]
fn document_key<P>(der: &[u8]) -> (r: core::result::Result<Vec<u8>, String>)
    where
        P: MlDsaSet + ml_dsa::MlDsaParams + pkcs8::spki::AssociatedAlgorithmIdentifier<
            Params = pkcs8::der::AnyRef<'static>,
        >,
    ensures
        text_outcome(r) == ml_dsa_document_key(P::variant(), der@),
        r matches Ok(vk) ==> vk@.len() == P::variant().verifying_key_len(),
{
    <ml_dsa::VerifyingKey::<P> as pkcs8::DecodePublicKey>::from_public_key_der(der)
        .map(|key| key.encode().to_vec())
        .map_err(|e| e.to_string())
}

/// Calls `ml_dsa::Signature::decode`. Claims that the answer is a function of the
/// bytes.
#[verifier::external_body]
fn decodes<P>(sig: &[u8]) -> (r: bool)
    where
        P: MlDsaSet + ml_dsa::MlDsaParams,
    requires
        sig@.len() == P::variant().signature_len(),
    ensures
        r == ml_dsa_decodes(P::variant(), sig@),
{
    let encoded = ml_dsa::EncodedSignature::<P>::try_from(sig).unwrap();
    ml_dsa::Signature::<P>::decode(&encoded).is_some()
}

/// Calls `ml_dsa::VerifyingKey::verify_with_context`. Claims that context and data
/// are verified as one message, that a challenge which is a function of key, message
/// and signature is computed, that the answer is yes exactly where the signature
/// starts with it, and that it is no where the context has more than 255 bytes.
#[verifier::external_body]
fn verify_with_context<P>(vk: &[u8], data: &[u8], ctx: &[u8], sig: &[u8]) -> (r: bool)
    where
        P: MlDsaSet + ml_dsa::MlDsaParams,
    requires
        vk@.len() == P::variant().verifying_key_len(),
        sig@.len() == P::variant().signature_len(),
        ml_dsa_decodes(P::variant(), sig@),
    ensures
        ctx@.len() <= 255 ==> r == (ml_dsa_challenge(
            P::variant(),
            vk@,
            in_context(ctx@, data@),
            sig@,
        ) == sig@.subrange(0, P::variant().challenge_len() as int)),
        ctx@.len() > 255 ==> !r,
{
    let vk = ml_dsa::EncodedVerifyingKey::<P>::try_from(vk).unwrap();
    let sig = ml_dsa::EncodedSignature::<P>::try_from(sig).unwrap();
    let sig = ml_dsa::Signature::<P>::decode(&sig).unwrap();
    ml_dsa::VerifyingKey::<P>::decode(&vk).verify_with_context(data, ctx, &sig)
}

/// Calls `getrandom::fill`. Nothing is claimed of the bytes, which are random.
#[verifier::external_body]
fn fill_random(bytes: &mut [u8; 32]) -> (r: core::result::Result<(), String>) {
    getrandom::fill(bytes).map_err(|e| e.to_string())
}

/// Calls `zeroize` of the `zeroize` crate on an array. Claims that it is all
/// zeros afterwards.
#[verifier::external_body]
fn wipe_array(bytes: &mut [u8; 32])
    ensures
        final(bytes)@ == Seq::new(32, |i: int| 0u8),
{
    zeroize::Zeroize::zeroize(bytes)
}

/// The seed that `private_der` holds: that of a PKCS#8 document, else the 32
/// bytes themselves.
pub open spec fn ml_dsa_seed(variant: MlDsaVariant, private_der: Seq<u8>) -> core::result::Result<
    Seq<u8>,
    ErrorView,
> {
    ml_dsa_parsed_seed(ml_dsa_pkcs8_seed(variant, private_der), private_der)
}

/// The seed that was read from a document, else the 32 bytes themselves.
pub open spec fn ml_dsa_parsed_seed(
    parsed: Option<Seq<u8>>,
    private_der: Seq<u8>,
) -> core::result::Result<Seq<u8>, ErrorView> {
    match parsed {
        Some(seed) => Ok(seed),
        None => if private_der.len() == 32 {
            Ok(private_der)
        } else {
            Err(
                ErrorView::Key(
                    "failed to parse ML-DSA private key: expected PKCS#8 DER or 32-byte seed, got "@
                        + decimal_text(private_der.len()) + " bytes"@,
                ),
            )
        },
    }
}

/// The seed that was read from a document, else the bytes themselves where they
/// are as many as a seed has.
pub fn ml_dsa_seed_from(parsed: Option<Vec<u8>>, private_der: &[u8]) -> (r: Result<Vec<u8>>)
    ensures
        view_outcome(r) == ml_dsa_parsed_seed(option_view(parsed), private_der@),
{
    match parsed {
        Some(seed) => Ok(seed),
        None => {
            if private_der.len() == 32 {
                Ok(to_vec(private_der))
            } else {
                let len: String = decimal(private_der.len());
                Err(
                    Error::Key(
                        join3(
                            "failed to parse ML-DSA private key: expected PKCS#8 DER or 32-byte seed, got ",
                            len.as_str(),
                            " bytes",
                        ),
                    ),
                )
            }
        },
    }
}

/// Loads a signing key, as its seed, from a PKCS#8 document or a bare seed.
pub fn load_ml_dsa_signing_key(variant: MlDsaVariant, private_der: &[u8]) -> (r: Result<Vec<u8>>)
    ensures
        view_outcome(r) == ml_dsa_seed(variant, private_der@),
        private_der@.len() <= 32 ==> ml_dsa_pkcs8_seed(variant, private_der@) is None,
        r matches Ok(seed) ==> seed@.len() == 32,
{
    let parsed: Option<Vec<u8>> = match variant {
        MlDsaVariant::MlDsa44 => pkcs8_seed::<ml_dsa::MlDsa44>(private_der),
        MlDsaVariant::MlDsa65 => pkcs8_seed::<ml_dsa::MlDsa65>(private_der),
        MlDsaVariant::MlDsa87 => pkcs8_seed::<ml_dsa::MlDsa87>(private_der),
    };
    ml_dsa_seed_from(parsed, private_der)
}

/// The possible outcomes of signing with a loaded key. Signatures are
/// randomized; each has the right length, decodes, and is accepted in the same
/// context under the seed's verifying key. A context of more than 255 bytes is
/// refused; a failure of the system's random numbers is reported in the same way.
pub open spec fn ml_dsa_seed_sign_outcome(
    variant: MlDsaVariant,
    seed: Seq<u8>,
    data: Seq<u8>,
    ctx: Seq<u8>,
    r: core::result::Result<Seq<u8>, ErrorView>,
) -> bool {
    match r {
        Ok(sig) => {
            &&& ctx.len() <= 255
            &&& sig.len() == variant.signature_len()
            &&& ml_dsa_decodes(variant, sig)
            &&& ml_dsa_accepts(
                variant,
                ml_dsa_verifying_key(variant, seed),
                in_context(ctx, data),
                sig,
            )
        },
        Err(e) => e == ErrorView::Crypto("ML-DSA sign failed: "@ + "signature error"@),
    }
}

/// The possible outcomes of signing with `private_der`. A string no longer than a
/// bare seed is never taken for a document.
pub open spec fn ml_dsa_private_sign_outcome(
    variant: MlDsaVariant,
    private_der: Seq<u8>,
    data: Seq<u8>,
    ctx: Seq<u8>,
    r: core::result::Result<Seq<u8>, ErrorView>,
) -> bool {
    &&& private_der.len() <= 32 ==> ml_dsa_pkcs8_seed(variant, private_der) is None
    &&& match ml_dsa_seed(variant, private_der) {
        Ok(seed) => ml_dsa_seed_sign_outcome(variant, seed, data, ctx, r),
        Err(e) => r == core::result::Result::<Seq<u8>, ErrorView>::Err(e),
    }
}

/// Signs with a loaded key, of which nothing is left afterwards.
fn sign_and_wipe(variant: MlDsaVariant, seed: &mut Vec<u8>, data: &[u8], context: &[u8]) -> (r: Result<
    Vec<u8>,
>)
    requires
        old(seed)@.len() == 32,
    ensures
        final(seed)@ == Seq::<u8>::empty(),
        ml_dsa_seed_sign_outcome(variant, old(seed)@, data@, context@, view_outcome(r)),
{
    let bytes: &[u8] = seed.as_slice();
    let signed: core::result::Result<Vec<u8>, String> = match variant {
        MlDsaVariant::MlDsa44 => sign_randomized::<ml_dsa::MlDsa44>(bytes, data, context),
        MlDsaVariant::MlDsa65 => sign_randomized::<ml_dsa::MlDsa65>(bytes, data, context),
        MlDsaVariant::MlDsa87 => sign_randomized::<ml_dsa::MlDsa87>(bytes, data, context),
    };
    wipe_vec(seed);
    crypto_reply("ML-DSA sign failed: ", signed)
}

/// Signs `data` in a context. `private_der` is a PKCS#8 document or a bare seed.
/// The copy of the seed that was signed with is wiped.
pub fn pq_ml_dsa_sign(variant: MlDsaVariant, private_der: &[u8], data: &[u8], context: &[u8]) -> (r: Result<
    Vec<u8>,
>)
    ensures
        ml_dsa_private_sign_outcome(variant, private_der@, data@, context@, view_outcome(r)),
{
    let mut loaded: Vec<u8> = match load_ml_dsa_signing_key(variant, private_der) {
        Ok(seed) => seed,
        Err(e) => return Err(e),
    };
    sign_and_wipe(variant, &mut loaded, data, context)
}

/// The possible outcomes of signing with `key`.
pub open spec fn ml_dsa_sign_outcome(
    variant: MlDsaVariant,
    key: SoftwareKey,
    data: Seq<u8>,
    ctx: Seq<u8>,
    r: core::result::Result<Seq<u8>, ErrorView>,
) -> bool {
    match key {
        SoftwareKey::PostQuantum { private_der: Some(private), .. } => ml_dsa_private_sign_outcome(
            variant,
            private@,
            data,
            ctx,
            r,
        ),
        _ => r == core::result::Result::<Seq<u8>, ErrorView>::Err(
            ErrorView::Key(variant.name_text() + " private key required for signing"@),
        ),
    }
}

/// Signs `data` in a context.
pub fn pq_ml_dsa_sign_dispatch(
    key: &SoftwareKey,
    variant: MlDsaVariant,
    data: &[u8],
    context: &[u8],
) -> (r: Result<Vec<u8>>)
    ensures
        ml_dsa_sign_outcome(variant, *key, data@, context@, view_outcome(r)),
{
    match key {
        SoftwareKey::PostQuantum { private_der: Some(private), .. } => pq_ml_dsa_sign(
            variant,
            private.as_slice(),
            data,
            context,
        ),
        _ => Err(Error::Key(join2(variant.name(), " private key required for signing"))),
    }
}

/// The answer of verification under the document `public_der`.
pub open spec fn ml_dsa_public_verify_outcome(
    variant: MlDsaVariant,
    public_der: Seq<u8>,
    data: Seq<u8>,
    sig: Seq<u8>,
    ctx: Seq<u8>,
) -> core::result::Result<bool, ErrorView> {
    match ml_dsa_document_key(variant, public_der) {
        Ok(vk) => if sig.len() != variant.signature_len() {
            Err(ErrorView::Crypto("invalid ML-DSA signature length"@))
        } else if !ml_dsa_decodes(variant, sig) {
            Err(ErrorView::Crypto("failed to decode ML-DSA signature"@))
        } else {
            Ok(ctx.len() <= 255 && ml_dsa_accepts(variant, vk, in_context(ctx, data), sig))
        },
        Err(e) => Err(ErrorView::Key("failed to parse ML-DSA public key: "@ + e)),
    }
}

/// The answer of verification, given whether the signature has the right length,
/// whether it decodes, and whether it is accepted.
pub fn ml_dsa_verdict(right_len: bool, decoded: bool, accepted: bool) -> (r: Result<bool>)
    ensures
        outcome(r) == (if !right_len {
            Err(ErrorView::Crypto("invalid ML-DSA signature length"@))
        } else if !decoded {
            Err(ErrorView::Crypto("failed to decode ML-DSA signature"@))
        } else {
            Ok(accepted)
        }),
{
    if !right_len {
        Err(Error::Crypto("invalid ML-DSA signature length".to_owned()))
    } else if !decoded {
        Err(Error::Crypto("failed to decode ML-DSA signature".to_owned()))
    } else {
        Ok(accepted)
    }
}

fn signature_size(variant: MlDsaVariant) -> (r: usize)
    ensures
        r == variant.signature_len(),
{
    match variant {
        MlDsaVariant::MlDsa44 => 2420,
        MlDsaVariant::MlDsa65 => 3309,
        MlDsaVariant::MlDsa87 => 4627,
    }
}

/// Verifies a signature in a context under the document `public_der`.
pub fn pq_ml_dsa_verify(
    variant: MlDsaVariant,
    public_der: &[u8],
    data: &[u8],
    sig_bytes: &[u8],
    context: &[u8],
) -> (r: Result<bool>)
    ensures
        outcome(r) == ml_dsa_public_verify_outcome(
            variant,
            public_der@,
            data@,
            sig_bytes@,
            context@,
        ),
        context@.len() > 255 ==> !(r matches Ok(true)),
{
    let parsed: core::result::Result<Vec<u8>, String> = match variant {
        MlDsaVariant::MlDsa44 => document_key::<ml_dsa::MlDsa44>(public_der),
        MlDsaVariant::MlDsa65 => document_key::<ml_dsa::MlDsa65>(public_der),
        MlDsaVariant::MlDsa87 => document_key::<ml_dsa::MlDsa87>(public_der),
    };
    let key: Vec<u8> = match key_reply("failed to parse ML-DSA public key: ", parsed) {
        Ok(vk) => vk,
        Err(e) => return Err(e),
    };
    let right_len: bool = sig_bytes.len() == signature_size(variant);
    let decoded: bool = right_len && match variant {
        MlDsaVariant::MlDsa44 => decodes::<ml_dsa::MlDsa44>(sig_bytes),
        MlDsaVariant::MlDsa65 => decodes::<ml_dsa::MlDsa65>(sig_bytes),
        MlDsaVariant::MlDsa87 => decodes::<ml_dsa::MlDsa87>(sig_bytes),
    };
    let vk: &[u8] = key.as_slice();
    let accepted: bool = decoded && match variant {
        MlDsaVariant::MlDsa44 => verify_with_context::<ml_dsa::MlDsa44>(vk, data, context, sig_bytes),
        MlDsaVariant::MlDsa65 => verify_with_context::<ml_dsa::MlDsa65>(vk, data, context, sig_bytes),
        MlDsaVariant::MlDsa87 => verify_with_context::<ml_dsa::MlDsa87>(vk, data, context, sig_bytes),
    };
    ml_dsa_verdict(right_len, decoded, accepted)
}

/// The answer of verification with `key`.
pub open spec fn ml_dsa_verify_outcome(
    variant: MlDsaVariant,
    key: SoftwareKey,
    data: Seq<u8>,
    sig: Seq<u8>,
    ctx: Seq<u8>,
) -> core::result::Result<bool, ErrorView> {
    match key {
        SoftwareKey::PostQuantum { public_der, .. } => ml_dsa_public_verify_outcome(
            variant,
            public_der@,
            data,
            sig,
            ctx,
        ),
        _ => Err(ErrorView::Key(variant.name_text() + " key required for verification"@)),
    }
}

/// Verifies a signature in a context.
pub fn pq_ml_dsa_verify_dispatch(
    key: &SoftwareKey,
    variant: MlDsaVariant,
    data: &[u8],
    sig_bytes: &[u8],
    context: &[u8],
) -> (r: Result<bool>)
    ensures
        outcome(r) == ml_dsa_verify_outcome(variant, *key, data@, sig_bytes@, context@),
        context@.len() > 255 ==> !(r matches Ok(true)),
{
    match key {
        SoftwareKey::PostQuantum { public_der, .. } => pq_ml_dsa_verify(
            variant,
            public_der.as_slice(),
            data,
            sig_bytes,
            context,
        ),
        _ => Err(Error::Key(join2(variant.name(), " key required for verification"))),
    }
}

/// Whether `key` is the key pair of `seed`: the seed is its private half, and its
/// public half is the document of the seed's verifying key.
pub open spec fn ml_dsa_is_key_of_seed(
    variant: MlDsaVariant,
    seed: Seq<u8>,
    key: SoftwareKey,
) -> bool {
    match key {
        SoftwareKey::PostQuantum { algorithm, private_der: Some(private), public_der } => {
            &&& algorithm == PqAlgorithm::MlDsa(variant)
            &&& private@ == seed
            &&& ml_dsa_public_document(variant, seed)
                == text_success(public_der@)
            &&& ml_dsa_document_key(variant, public_der@)
                == text_success(ml_dsa_verifying_key(variant, seed))
            &&& public_der@.len() > variant.verifying_key_len()
        },
        _ => false,
    }
}

/// Builds the key pair of a seed, which it takes: nothing of the seed is left
/// outside the key.
pub fn ml_dsa_key_from_seed(variant: MlDsaVariant, seed: &mut Vec<u8>) -> (r: Result<SoftwareKey>)
    requires
        old(seed)@.len() == 32,
    ensures
        final(seed)@ == Seq::<u8>::empty(),
        match ml_dsa_public_document(variant, old(seed)@) {
            Ok(_) => r is Ok,
            Err(text) => r is Err && r->Err_0@ == ErrorView::Crypto("ML-DSA SPKI encode: "@ + text),
        },
        r matches Ok(key) ==> ml_dsa_is_key_of_seed(variant, old(seed)@, key),
{
    let bytes: &[u8] = seed.as_slice();
    let encoded: core::result::Result<Vec<u8>, String> = match variant {
        MlDsaVariant::MlDsa44 => public_document::<ml_dsa::MlDsa44>(bytes),
        MlDsaVariant::MlDsa65 => public_document::<ml_dsa::MlDsa65>(bytes),
        MlDsaVariant::MlDsa87 => public_document::<ml_dsa::MlDsa87>(bytes),
    };
    ml_dsa_key_from_parts(variant, seed, encoded)
}

/// Puts a key pair together from a seed, which it takes, and what encoding its
/// public key gave. Where that failed, the seed is wiped before the error is
/// returned.
pub fn ml_dsa_key_from_parts(
    variant: MlDsaVariant,
    seed: &mut Vec<u8>,
    encoded: core::result::Result<Vec<u8>, String>,
) -> (r: Result<SoftwareKey>)
    ensures
        final(seed)@ == Seq::<u8>::empty(),
        match encoded {
            Ok(document) => {
                &&& r matches Ok(SoftwareKey::PostQuantum { algorithm, private_der, public_der })
                &&& algorithm == PqAlgorithm::MlDsa(variant)
                &&& private_der == Some(*old(seed))
                &&& public_der == document
            },
            Err(e) => r is Err && r->Err_0@ == ErrorView::Crypto("ML-DSA SPKI encode: "@ + e@),
        },
{
    match encoded {
        Ok(public_der) => {
            let mut private_der: Vec<u8> = Vec::new();
            core::mem::swap(seed, &mut private_der);
            Ok(
                SoftwareKey::PostQuantum {
                    algorithm: PqAlgorithm::MlDsa(variant),
                    private_der: Some(private_der),
                    public_der,
                },
            )
        },
        Err(e) => {
            wipe_vec(seed);
            Err(Error::Crypto(join2("ML-DSA SPKI encode: ", e.as_str())))
        },
    }
}

/// The outcome of key generation, given what drawing the seed gave.
pub open spec fn ml_dsa_generated(
    variant: MlDsaVariant,
    drawn: core::result::Result<Seq<u8>, Seq<char>>,
    r: Result<SoftwareKey>,
) -> bool {
    match drawn {
        Ok(seed) => match ml_dsa_public_document(variant, seed) {
            Ok(_) => r is Ok && ml_dsa_is_key_of_seed(variant, seed, r->Ok_0),
            Err(e) => r is Err && r->Err_0@ == ErrorView::Crypto("ML-DSA SPKI encode: "@ + e),
        },
        Err(e) => r is Err && r->Err_0@ == ErrorView::Crypto("OS entropy draw failed: "@ + e),
    }
}

/// Generates a key pair, given what drawing the seed gave.
pub fn ml_dsa_key_from_draw(
    variant: MlDsaVariant,
    drawn: core::result::Result<Vec<u8>, String>,
) -> (r: Result<SoftwareKey>)
    requires
        drawn matches Ok(seed) ==> seed@.len() == 32,
    ensures
        ml_dsa_generated(variant, text_outcome(drawn), r),
{
    match drawn {
        Ok(seed) => {
            let mut seed: Vec<u8> = seed;
            ml_dsa_key_from_seed(variant, &mut seed)
        },
        Err(e) => Err(Error::Crypto(join2("OS entropy draw failed: ", e.as_str()))),
    }
}

/// The seed that was drawn into a buffer, given what drawing gave. The buffer holds
/// nothing of it afterwards, whether or not the draw failed.
pub fn seed_from_buffer(
    filled: core::result::Result<(), String>,
    buffer: &mut [u8; 32],
) -> (r: core::result::Result<Vec<u8>, String>)
    ensures
        final(buffer)@ == Seq::new(32, |i: int| 0u8),
        text_outcome(r) == (match filled {
            Ok(_) => Ok(old(buffer)@),
            Err(e) => Err(e@),
        }),
{
    let drawn: core::result::Result<Vec<u8>, String> = match filled {
        Ok(_) => Ok(to_vec(array_as_slice(buffer))),
        Err(e) => Err(e),
    };
    wipe_array(buffer);
    drawn
}

/// Generates a key pair from 32 bytes of the system's random numbers.
///
/// The private half of the key is the seed, and no other copy of it is left.
pub fn generate_ml_dsa(variant: MlDsaVariant) -> (r: Result<SoftwareKey>)
    ensures
        exists|drawn: core::result::Result<Seq<u8>, Seq<char>>|
            {
                &&& #[trigger] ml_dsa_generated(variant, drawn, r)
                &&& drawn matches Ok(seed) ==> seed.len() == 32
            },
{
    let mut seed_bytes: [u8; 32] = [0u8; 32];
    let filled: core::result::Result<(), String> = fill_random(&mut seed_bytes);
    let drawn: core::result::Result<Vec<u8>, String> = seed_from_buffer(
        filled,
        &mut seed_bytes,
    );
    let ghost view = text_outcome(drawn);
    let r: Result<SoftwareKey> = ml_dsa_key_from_draw(variant, drawn);
    assert(ml_dsa_generated(variant, view, r));
    r
}

} // verus!
