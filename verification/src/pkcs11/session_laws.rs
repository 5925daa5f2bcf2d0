//! What ciphers, key agreement, searches and sessions on a token do, said of their
//! inputs, requests and results.
use crate::algorithm::CipherAlgorithm;
use crate::error::{Error, Result};
use crate::pkcs11::agreement::{
    Cleanup, DeriveCall, Pkcs11KeyAgreement, TokenAttribute, ValueRead,
};
use crate::pkcs11::cipher::{Pkcs11Cipher, PrefixDraw, SealCall};
use crate::pkcs11::mechanism::Mechanism;
use crate::pkcs11::operation::{
    Pkcs11Decryptor, Pkcs11Encryptor, Pkcs11HmacSigner, Pkcs11KeyWrapper, Pkcs11Signer,
    Pkcs11Verifier,
};
use crate::pkcs11::provider::{
    InitializeReply, LibraryInitialize, LibraryLoad, Pkcs11Provider, Pkcs11Session, SessionLogin,
    SessionOpen, SlotSearch,
};
use crate::pkcs11::request::{
    template_view, CallReply, Locking, ObjectClass, ObjectQuery, TemplateAttribute, TokenCall,
};
use crate::text::decimal_text;
use vstd::prelude::*;

verus! {

/// Encrypting draws an IV of 16 bytes for AES-CBC and a nonce of 12 for AES-GCM,
/// whatever the key size, and hands the token the mechanism of just that mode with what
/// was drawn: CBC with padding, or GCM without further data and with a tag of 128 bits.
/// The token gets the plaintext as it is. Triple DES is refused, and a draw that failed
/// ends the operation.
pub proof fn encrypting_keeps_to_the_mode<H: Copy>(
    key: H,
    algorithm: CipherAlgorithm,
    cipher: Pkcs11Cipher<H>,
    plaintext: &[u8],
    started: Locking<Result<PrefixDraw<H>>>,
    len: usize,
    drawn: core::result::Result<Vec<u8>, String>,
    sealing: Result<SealCall<H>>,
    call: &TokenCall<H>,
)
    requires
        call_ensures(Pkcs11Cipher::<H>::new, (key, algorithm), cipher),
        call_ensures(Pkcs11Cipher::<H>::encrypt, (&cipher, plaintext), started),
        call_ensures(PrefixDraw::<H>::len, (&started.next_step()->Ok_0,), len),
        call_ensures(PrefixDraw::<H>::drawn, (started.next_step()->Ok_0, drawn), sealing),
        call_ensures(SealCall::<H>::call, (&sealing->Ok_0,), call),
    ensures
        algorithm is TripleDesCbc ==> {
            &&& started.next_step() matches Err(Error::UnsupportedAlgorithm(m))
            &&& m@ == "3DES-CBC not supported via PKCS#11 cipher"@
        },
        !(algorithm is TripleDesCbc) ==> started.next_step() is Ok,
        algorithm is AesCbc ==> len == 16,
        algorithm is AesGcm ==> len == 12,
        !(algorithm is TripleDesCbc) ==> match drawn {
            Ok(iv) => {
                &&& sealing is Ok
                &&& call.key == key
                &&& call.data@ == plaintext@
                &&& algorithm is AesCbc ==> {
                    &&& call.kind is CbcEncrypt
                    &&& call.mechanism matches Mechanism::AesCbcPad { iv: used }
                    &&& used@ == iv@
                }
                &&& algorithm is AesGcm ==> {
                    &&& call.kind is GcmEncrypt
                    &&& call.mechanism matches Mechanism::AesGcm { iv: used, aad, tag_bits }
                    &&& used@ == iv@
                    &&& aad@.len() == 0
                    &&& tag_bits == 128
                }
            },
            Err(e) => {
                &&& sealing matches Err(Error::Pkcs11(m))
                &&& m@ == "C_GenerateRandom failed: "@ + e@
            },
        },
{
}

/// What encrypting gives is the IV that was drawn, or the nonce as the token left it,
/// and then the token's ciphertext.
pub proof fn encrypting_puts_the_prefix_in_front<H: Copy>(
    key: H,
    algorithm: CipherAlgorithm,
    cipher: Pkcs11Cipher<H>,
    plaintext: &[u8],
    started: Locking<Result<PrefixDraw<H>>>,
    iv: Vec<u8>,
    seal: SealCall<H>,
    nonce: &[u8],
    ciphertext: Vec<u8>,
    r: Result<Vec<u8>>,
)
    requires
        call_ensures(Pkcs11Cipher::<H>::new, (key, algorithm), cipher),
        call_ensures(Pkcs11Cipher::<H>::encrypt, (&cipher, plaintext), started),
        started.next_step() is Ok,
        call_ensures(PrefixDraw::<H>::drawn, (started.next_step()->Ok_0, Ok(iv)), Ok(seal)),
        call_ensures(SealCall::<H>::finished, (&seal, nonce, CallReply::Output(ciphertext)), r),
    ensures
        algorithm is AesCbc ==> (r matches Ok(out) && out@ == iv@ + ciphertext@),
        algorithm is AesGcm ==> (r matches Ok(out) && out@ == nonce@ + ciphertext@),
{
}

/// A token that does not encrypt gives no ciphertext but its failure.
pub proof fn failed_encryptions_give_nothing<H: Copy>(
    key: H,
    algorithm: CipherAlgorithm,
    cipher: Pkcs11Cipher<H>,
    plaintext: &[u8],
    started: Locking<Result<PrefixDraw<H>>>,
    iv: Vec<u8>,
    seal: SealCall<H>,
    nonce: &[u8],
    reply: CallReply,
    r: Result<Vec<u8>>,
)
    requires
        call_ensures(Pkcs11Cipher::<H>::new, (key, algorithm), cipher),
        call_ensures(Pkcs11Cipher::<H>::encrypt, (&cipher, plaintext), started),
        started.next_step() is Ok,
        call_ensures(PrefixDraw::<H>::drawn, (started.next_step()->Ok_0, Ok(iv)), Ok(seal)),
        call_ensures(SealCall::<H>::finished, (&seal, nonce, reply), r),
        !(reply is Output),
    ensures
        r matches Err(Error::Pkcs11(m)) && match reply {
            CallReply::ParamsRejected(e) => m@ == "GcmParams::new failed: "@ + e@,
            CallReply::Failed(e) => {
                &&& algorithm is AesCbc ==> m@ == "C_Encrypt (AES-CBC) failed: "@ + e@
                &&& algorithm is AesGcm ==> m@ == "C_Encrypt (AES-GCM) failed: "@ + e@
            },
            CallReply::Output(_) => false,
        },
{
}

/// Decrypting takes the IV or nonce off the front, 16 bytes for AES-CBC and 12 for
/// AES-GCM, whatever the key size, and hands the token the mechanism of just that mode
/// with it and all that follows as the ciphertext. Where not even a block, or a tag, can
/// follow, the data is too short. Triple DES is refused.
pub proof fn decrypting_keeps_to_the_mode<H: Copy>(
    key: H,
    algorithm: CipherAlgorithm,
    cipher: Pkcs11Cipher<H>,
    data: &[u8],
    started: Locking<Result<TokenCall<H>>>,
)
    requires
        call_ensures(Pkcs11Cipher::<H>::new, (key, algorithm), cipher),
        call_ensures(Pkcs11Cipher::<H>::decrypt, (&cipher, data), started),
    ensures
        algorithm is TripleDesCbc ==> started.next_step() is Err && started.next_step()->Err_0
            is UnsupportedAlgorithm,
        algorithm is AesCbc && data@.len() < 32 ==> {
            &&& started.next_step() matches Err(Error::Crypto(m))
            &&& m@ == "AES-CBC ciphertext too short (need IV + at least one block)"@
        },
        algorithm is AesGcm && data@.len() < 28 ==> {
            &&& started.next_step() matches Err(Error::Crypto(m))
            &&& m@ == "AES-GCM ciphertext too short (need nonce + tag)"@
        },
        algorithm is AesCbc && data@.len() >= 32 ==> {
            &&& started.next_step() matches Ok(call)
            &&& call.kind is CbcDecrypt
            &&& call.key == key
            &&& call.mechanism matches Mechanism::AesCbcPad { iv }
            &&& iv@.len() == 16
            &&& iv@ + call.data@ == data@
        },
        algorithm is AesGcm && data@.len() >= 28 ==> {
            &&& started.next_step() matches Ok(call)
            &&& call.kind is GcmDecrypt
            &&& call.key == key
            &&& call.mechanism matches Mechanism::AesGcm { iv, aad, tag_bits }
            &&& iv@.len() == 12
            &&& iv@ + call.data@ == data@
            &&& aad@.len() == 0
            &&& tag_bits == 128
        },
{
    let n: int = if algorithm is AesCbc {
        16
    } else {
        12
    };
    if data@.len() >= n + 16 {
        assert(data@.subrange(0, n) + data@.subrange(n, data@.len() as int) =~= data@);
    }
}

/// What a cipher encrypted it decrypts: the token gets back its own ciphertext, under the
/// same key, by the same mechanism, with the IV or nonce that it was encrypted with.
pub proof fn decrypting_undoes_encrypting<H: Copy>(
    key: H,
    algorithm: CipherAlgorithm,
    cipher: Pkcs11Cipher<H>,
    plaintext: &[u8],
    started: Locking<Result<PrefixDraw<H>>>,
    iv: Vec<u8>,
    seal: SealCall<H>,
    call: &TokenCall<H>,
    nonce: &[u8],
    ciphertext: Vec<u8>,
    sealed: Vec<u8>,
    bytes: &[u8],
    opening: Locking<Result<TokenCall<H>>>,
)
    requires
        call_ensures(Pkcs11Cipher::<H>::new, (key, algorithm), cipher),
        call_ensures(Pkcs11Cipher::<H>::encrypt, (&cipher, plaintext), started),
        started.next_step() is Ok,
        algorithm is AesCbc ==> iv@.len() == 16,
        algorithm is AesGcm ==> iv@.len() == 12 && nonce@ == iv@,
        ciphertext@.len() >= 16,
        call_ensures(PrefixDraw::<H>::drawn, (started.next_step()->Ok_0, Ok(iv)), Ok(seal)),
        call_ensures(SealCall::<H>::call, (&seal,), call),
        call_ensures(
            SealCall::<H>::finished,
            (&seal, nonce, CallReply::Output(ciphertext)),
            Ok(sealed),
        ),
        bytes@ == sealed@,
        call_ensures(Pkcs11Cipher::<H>::decrypt, (&cipher, bytes), opening),
    ensures
        opening.next_step() matches Ok(back) && {
            &&& back.mechanism@ == call.mechanism@
            &&& back.key == call.key
            &&& back.data@ == ciphertext@
        },
{
    let n = iv@.len() as int;
    assert(sealed@ == iv@ + ciphertext@);
    assert(sealed@.subrange(0, n) =~= iv@);
    assert(sealed@.subrange(n, sealed@.len() as int) =~= ciphertext@);
}

/// A started agreement derives with the private key, by ECDH with the peer's public key,
/// a key whose template says exactly once each: that it is a generic secret, of the length
/// in bytes that the agreement was made for, which can be read off the token and neither
/// encrypts nor decrypts.
pub proof fn agreements_ask_for_the_whole_secret<H: Copy>(
    key: H,
    key_len: usize,
    agreement: Pkcs11KeyAgreement<H>,
    fits: bool,
    peer_public_key: &[u8],
    started: Result<Locking<DeriveCall<H>>>,
    asked_key: H,
    mechanism: &Mechanism,
    template: &Vec<TemplateAttribute>,
)
    requires
        call_ensures(Pkcs11KeyAgreement::<H>::new, (key, key_len), agreement),
        call_ensures(Pkcs11KeyAgreement::<H>::agree, (&agreement, peer_public_key), started)
            || call_ensures(
            Pkcs11KeyAgreement::<H>::agree_if,
            (&agreement, fits, peer_public_key),
            started,
        ),
        started is Ok,
        call_ensures(DeriveCall::<H>::key, (&started->Ok_0.next_step(),), asked_key),
        call_ensures(DeriveCall::<H>::mechanism, (&started->Ok_0.next_step(),), mechanism),
        call_ensures(DeriveCall::<H>::template, (&started->Ok_0.next_step(),), template),
    ensures
        asked_key == key,
        *mechanism matches Mechanism::Ecdh1Derive { public_data } && public_data@
            == peer_public_key@,
        template@.len() == 7,
        exists|i: int|
            0 <= i < template@.len() && #[trigger] template@[i] == TemplateAttribute::ValueLen(
                key_len,
            ),
        exists|i: int|
            0 <= i < template@.len() && #[trigger] template@[i] == TemplateAttribute::Class(
                ObjectClass::SecretKey,
            ),
        exists|i: int|
            0 <= i < template@.len() && #[trigger] template@[i]
                == TemplateAttribute::GenericSecret,
        exists|i: int|
            0 <= i < template@.len() && #[trigger] template@[i] == TemplateAttribute::Extractable(
                true,
            ),
        exists|i: int|
            0 <= i < template@.len() && #[trigger] template@[i] == TemplateAttribute::Sensitive(
                false,
            ),
        exists|i: int|
            0 <= i < template@.len() && #[trigger] template@[i] == TemplateAttribute::Encrypt(
                false,
            ),
        exists|i: int|
            0 <= i < template@.len() && #[trigger] template@[i] == TemplateAttribute::Decrypt(
                false,
            ),
        forall|i: int, j: int|
            0 <= i < j < template@.len() ==> !(#[trigger] template@[i] is ValueLen
                && #[trigger] template@[j] is ValueLen),
{
    let views = template_view(template@);
    assert forall|i: int| 0 <= i < template@.len() implies views[i] == #[trigger] template@[i]@ by {
    }
    assert(views.len() == 7);
    assert(template@[0]@ == views[0]);
    assert(template@[1]@ == views[1]);
    assert(template@[2]@ == views[2]);
    assert(template@[3]@ == views[3]);
    assert(template@[4]@ == views[4]);
    assert(template@[5]@ == views[5]);
    assert(template@[6]@ == views[6]);
}

/// An agreement starts exactly where the length fits the token's numbers, and every
/// length of 32 bits does; else the length is what is complained of.
pub proof fn agreements_start_for_lengths_that_fit<H: Copy>(
    key: H,
    key_len: usize,
    agreement: Pkcs11KeyAgreement<H>,
    fits: bool,
    peer_public_key: &[u8],
    asked: Result<Locking<DeriveCall<H>>>,
    told: Result<Locking<DeriveCall<H>>>,
)
    requires
        call_ensures(Pkcs11KeyAgreement::<H>::new, (key, key_len), agreement),
        call_ensures(Pkcs11KeyAgreement::<H>::agree, (&agreement, peer_public_key), asked),
        call_ensures(Pkcs11KeyAgreement::<H>::agree_if, (&agreement, fits, peer_public_key), told),
    ensures
        key_len <= 0xffff_ffff ==> asked is Ok,
        told is Ok <==> fits,
        asked is Err ==> {
            &&& asked matches Err(Error::Pkcs11(m))
            &&& m@ == "key_len "@ + decimal_text(key_len as nat) + " too large for Ulong"@
        },
        told is Err ==> {
            &&& told matches Err(Error::Pkcs11(m))
            &&& m@ == "key_len "@ + decimal_text(key_len as nat) + " too large for Ulong"@
        },
{
}

proof fn lemma_first_value(attributes: Seq<TokenAttribute>, i: int)
    requires
        0 <= i <= attributes.len(),
        forall|j: int| 0 <= j < i ==> #[trigger] attributes[j] is Other,
    ensures
        crate::pkcs11::agreement::first_value(attributes)
            == crate::pkcs11::agreement::first_value(attributes.skip(i)),
    decreases i,
{
    if i > 0 {
        lemma_first_value(attributes, i - 1);
        assert(attributes.skip(i - 1)[0] == attributes[i - 1]);
        assert(attributes.skip(i - 1).drop_first() =~= attributes.skip(i));
    } else {
        assert(attributes.skip(0) =~= attributes);
    }
}

/// The shared secret is the first value among the attributes of the derived key, and that
/// very key is removed again, whatever was read. Only where there is no value is there no
/// secret.
pub proof fn the_secret_is_the_first_value<H: Copy>(
    derive: DeriveCall<H>,
    object: H,
    reading: Result<ValueRead<H>>,
    asked: H,
    attributes: Vec<TokenAttribute>,
    i: int,
    cleanup: Result<Cleanup<H>>,
    removed: H,
    r: Result<Vec<u8>>,
)
    requires
        call_ensures(DeriveCall::<H>::derived, (derive, Ok(object)), reading),
        call_ensures(ValueRead::<H>::object, (&reading->Ok_0,), asked),
        call_ensures(ValueRead::<H>::read, (reading->Ok_0, Ok(attributes)), cleanup),
        call_ensures(Cleanup::<H>::object, (&cleanup->Ok_0,), removed),
        call_ensures(Cleanup::<H>::finished, (cleanup->Ok_0,), r),
        0 <= i <= attributes@.len(),
        forall|j: int| 0 <= j < i ==> #[trigger] attributes@[j] is Other,
        i < attributes@.len() ==> attributes@[i] is Value,
    ensures
        reading is Ok,
        cleanup is Ok,
        asked == object,
        removed == object,
        i < attributes@.len() ==> (r matches Ok(secret) && secret@
            == attributes@[i]->Value_0@),
        i == attributes@.len() ==> {
            &&& r matches Err(Error::Pkcs11(m))
            &&& m@ == "CKA_VALUE not present on derived ECDH key"@
        },
{
    lemma_first_value(attributes@, i);
    if i < attributes@.len() {
        assert(attributes@.skip(i)[0] == attributes@[i]);
    } else {
        assert(attributes@.skip(i).len() == 0);
    }
}

/// A derivation, or a reading, that failed ends the agreement with the token's text.
pub proof fn failed_agreements_say_why<H: Copy>(
    derive: DeriveCall<H>,
    read: ValueRead<H>,
    e: String,
    derived: Result<ValueRead<H>>,
    cleanup: Result<Cleanup<H>>,
)
    requires
        call_ensures(DeriveCall::<H>::derived, (derive, Err(e)), derived),
        call_ensures(ValueRead::<H>::read, (read, Err(e)), cleanup),
    ensures
        derived matches Err(Error::Pkcs11(m)) && m@ == "C_DeriveKey (ECDH) failed: "@ + e@,
        cleanup matches Err(Error::Pkcs11(m)) && m@ == "C_GetAttributeValue failed: "@ + e@,
{
}

/// An object is searched for by its class and by the bytes of its label, and by nothing
/// else; the first that is found is taken.
pub proof fn searches_go_by_class_and_label<H: Copy>(
    class: ObjectClass,
    label: &str,
    query: ObjectQuery,
    template: Vec<TemplateAttribute>,
    reply: core::result::Result<Vec<H>, String>,
    r: Result<H>,
)
    requires
        call_ensures(ObjectQuery::new, (class, label), query),
        call_ensures(ObjectQuery::template, (&query,), template),
        call_ensures(ObjectQuery::finished::<H>, (&query, reply), r),
    ensures
        template@.len() == 2,
        template@[0] == TemplateAttribute::Class(class),
        template@[1] matches TemplateAttribute::Label(bytes) && bytes@
            == vstd::utf8::encode_utf8(label@),
        match reply {
            Ok(objects) => if objects@.len() > 0 {
                r == Ok::<H, Error>(objects@[0])
            } else {
                r matches Err(Error::Pkcs11(m)) && m@ == "no "@ + (match class {
                    ObjectClass::PrivateKey => "CKO_PRIVATE_KEY"@,
                    ObjectClass::PublicKey => "CKO_PUBLIC_KEY"@,
                    ObjectClass::SecretKey => "CKO_SECRET_KEY"@,
                }) + " object found with label \""@ + label@ + "\""@
            },
            Err(e) => r matches Err(Error::Pkcs11(m)) && m@ == "C_FindObjects failed: "@ + e@,
        },
{
    let views = template_view(template@);
    assert(views.len() == 2);
    assert(template@[0]@ == views[0]);
    assert(template@[1]@ == views[1]);
}

/// Signing, decrypting and agreeing take private keys; verifying and encrypting take
/// public keys; codes, wrapping and ciphers take secret keys. Each is searched for by the
/// label that is given.
pub proof fn operations_search_for_their_kind_of_key<H: Copy>(
    label: &str,
    private: Locking<ObjectQuery>,
    public: Locking<ObjectQuery>,
    secret: Locking<ObjectQuery>,
)
    requires
        call_ensures(Pkcs11Session::find_private_key, (label,), private) || call_ensures(
            Pkcs11Signer::<H>::key_query,
            (label,),
            private,
        ) || call_ensures(Pkcs11Decryptor::<H>::key_query, (label,), private) || call_ensures(
            Pkcs11KeyAgreement::<H>::key_query,
            (label,),
            private,
        ),
        call_ensures(Pkcs11Session::find_public_key, (label,), public) || call_ensures(
            Pkcs11Verifier::<H>::key_query,
            (label,),
            public,
        ) || call_ensures(Pkcs11Encryptor::<H>::key_query, (label,), public),
        call_ensures(Pkcs11Session::find_secret_key, (label,), secret) || call_ensures(
            Pkcs11HmacSigner::<H>::key_query,
            (label,),
            secret,
        ) || call_ensures(Pkcs11KeyWrapper::<H>::key_query, (label,), secret) || call_ensures(
            Pkcs11Cipher::<H>::key_query,
            (label,),
            secret,
        ),
    ensures
        private.next_step().spec_class() is PrivateKey,
        public.next_step().spec_class() is PublicKey,
        secret.next_step().spec_class() is SecretKey,
        private.next_step().spec_label() == label@,
        public.next_step().spec_label() == label@,
        secret.next_step().spec_label() == label@,
{
}

/// A search's template holds the class and the label that the search is for.
pub proof fn templates_hold_what_is_searched_for(
    query: &ObjectQuery,
    template: Vec<TemplateAttribute>,
)
    requires
        call_ensures(ObjectQuery::template, (query,), template),
    ensures
        template@.len() == 2,
        template@[0] == TemplateAttribute::Class(query.spec_class()),
        template@[1] matches TemplateAttribute::Label(bytes) && bytes@
            == vstd::utf8::encode_utf8(query.spec_label()),
{
    let views = template_view(template@);
    assert(views.len() == 2);
    assert(template@[0]@ == views[0]);
    assert(template@[1]@ == views[1]);
}

/// A provider loads the library that it was asked for, takes one that was initialized
/// before, and selects the first slot with a token.
pub proof fn providers_take_the_first_slot<L: Copy, S: Copy>(
    path: L,
    load: LibraryLoad<L>,
    asked: L,
    loading: Result<LibraryInitialize>,
    reply: InitializeReply,
    initializing: Result<SlotSearch>,
    slots: Vec<S>,
    provider: Result<Pkcs11Provider<S>>,
    slot: S,
)
    requires
        call_ensures(Pkcs11Provider::<S>::new::<L>, (path,), load),
        call_ensures(LibraryLoad::<L>::library_path, (&load,), asked),
        call_ensures(LibraryLoad::<L>::loaded, (load, Ok(())), loading),
        call_ensures(LibraryInitialize::initialized, (loading->Ok_0, reply), initializing),
        call_ensures(SlotSearch::found::<S>, (initializing->Ok_0, Ok(slots)), provider),
        call_ensures(Pkcs11Provider::<S>::slot, (&provider->Ok_0,), slot),
    ensures
        asked == path,
        loading is Ok,
        initializing is Ok <==> reply is Done || reply is AlreadyInitialized,
        reply matches InitializeReply::Failed(e) ==> {
            &&& initializing matches Err(Error::Pkcs11(m))
            &&& m@ == "C_Initialize failed: "@ + e@
        },
        provider is Ok <==> slots@.len() > 0,
        slots@.len() > 0 ==> slot == slots@[0],
        slots@.len() == 0 ==> {
            &&& provider matches Err(Error::Pkcs11(m))
            &&& m@ == "no slots with initialized token found"@
        },
{
}

/// Each step towards a provider or a session that fails says which it was, and why.
pub proof fn failed_steps_say_which<L: Copy, S: Copy>(
    load: LibraryLoad<L>,
    search: SlotSearch,
    open: SessionOpen<S>,
    login: SessionLogin,
    e: String,
    loaded: Result<LibraryInitialize>,
    found: Result<Pkcs11Provider<S>>,
    opened: Result<SessionLogin>,
    logged_in: Result<Pkcs11Session>,
)
    requires
        call_ensures(LibraryLoad::<L>::loaded, (load, Err(e)), loaded),
        call_ensures(SlotSearch::found::<S>, (search, Err(e)), found),
        call_ensures(SessionOpen::<S>::opened, (open, Err(e)), opened),
        call_ensures(SessionLogin::logged_in, (login, Err(e)), logged_in),
    ensures
        loaded matches Err(Error::Pkcs11(m)) && m@ == "failed to load PKCS#11 library: "@ + e@,
        found matches Err(Error::Pkcs11(m)) && m@ == "C_GetSlotList failed: "@ + e@,
        opened matches Err(Error::Pkcs11(m)) && m@ == "C_OpenSession failed: "@ + e@,
        logged_in matches Err(Error::Pkcs11(m)) && m@ == "C_Login failed: "@ + e@,
{
}

/// A session is opened on the provider's slot and logged in to with the PIN that was
/// given, letter for letter.
pub proof fn sessions_log_in_with_the_pin<S: Copy>(
    provider: &Pkcs11Provider<S>,
    slot: S,
    pin: &str,
    opening: Result<SessionOpen<S>>,
    asked: S,
    login: Result<SessionLogin>,
    used: &str,
    session: Result<Pkcs11Session>,
)
    requires
        call_ensures(Pkcs11Provider::<S>::slot, (provider,), slot),
        call_ensures(Pkcs11Provider::<S>::open_session, (provider, pin), opening),
        call_ensures(SessionOpen::<S>::slot, (&opening->Ok_0,), asked),
        call_ensures(SessionOpen::<S>::opened, (opening->Ok_0, Ok(())), login),
        call_ensures(SessionLogin::pin, (&login->Ok_0,), used),
        call_ensures(SessionLogin::logged_in, (login->Ok_0, Ok(())), session),
    ensures
        opening is Ok,
        asked == slot,
        login is Ok,
        used@ == pin@,
        session is Ok,
{
}

/// A PIN in bytes is the text that the bytes encode, and is refused exactly where they
/// encode none: so the bytes of a text log in as the text does.
pub proof fn byte_pins_are_texts<S: Copy>(
    provider: &Pkcs11Provider<S>,
    slot: S,
    pin: &[u8],
    opening: Result<SessionOpen<S>>,
    asked: S,
    login: Result<SessionLogin>,
    used: &str,
)
    requires
        call_ensures(Pkcs11Provider::<S>::slot, (provider,), slot),
        call_ensures(Pkcs11Provider::<S>::open_session_bytes, (provider, pin), opening),
        call_ensures(SessionOpen::<S>::slot, (&opening->Ok_0,), asked),
        call_ensures(SessionOpen::<S>::opened, (opening->Ok_0, Ok(())), login),
        call_ensures(SessionLogin::pin, (&login->Ok_0,), used),
    ensures
        opening is Ok <==> vstd::utf8::valid_utf8(pin@),
        opening is Ok ==> asked == slot && used@ == vstd::utf8::decode_utf8(pin@),
        opening is Err ==> {
            &&& opening matches Err(Error::Pkcs11(m))
            &&& m@ == "PKCS#11 PIN must be valid UTF-8: "@
                + crate::pkcs11::provider::utf8_error_text(pin@)
        },
{
}

/// A PIN that was read as a text is the text that is logged in with; why it was not read
/// is passed on.
pub proof fn parsed_pins_are_used<S: Copy>(
    provider: &Pkcs11Provider<S>,
    text: core::result::Result<&str, String>,
    opening: Result<SessionOpen<S>>,
)
    requires
        call_ensures(Pkcs11Provider::<S>::open_session_parsed, (provider, text), opening),
    ensures
        text matches Ok(pin) ==> {
            &&& opening matches Ok(open)
            &&& open.spec_slot() == provider.spec_slot()
            &&& open.spec_pin() == pin@
        },
        text matches Err(e) ==> {
            &&& opening matches Err(Error::Pkcs11(m))
            &&& m@ == "PKCS#11 PIN must be valid UTF-8: "@ + e@
        },
{
}

} // verus!
