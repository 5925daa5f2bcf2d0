//! ECDH key agreement with a private key on a token.
use crate::bytes::to_vec;
use crate::error::{Error, ErrorView, Result};
use crate::pkcs11::mechanism::{Mechanism, MechanismView};
use crate::pkcs11::provider::Pkcs11Session;
use crate::pkcs11::request::{
    template_view, Locking, ObjectClass, ObjectQuery, TemplateAttribute, TemplateView,
};
use crate::text::{decimal, decimal_text, join2, join3};
use vstd::prelude::*;

verus! {

/// The template of the derived key: a generic secret of a given length whose value
/// can be read.
pub open spec fn derive_template(key_len: usize) -> Seq<TemplateView> {
    seq![
        TemplateView::Class(ObjectClass::SecretKey),
        TemplateView::GenericSecret,
        TemplateView::Encrypt(false),
        TemplateView::Decrypt(false),
        TemplateView::ValueLen(key_len),
        TemplateView::Extractable(true),
        TemplateView::Sensitive(false),
    ]
}

/// Calls `cryptoki::types::Ulong::try_from`. Claims only that a length of 32 bits
/// is taken: how much more is depends on the platform's `unsigned long`.
#[verifier::external_body]
fn fits_ulong(n: usize) -> (r: bool)
    ensures
        n <= 0xffff_ffff ==> r,
{
    cryptoki::types::Ulong::try_from(n).is_ok()
}

/// Agrees on a shared secret by ECDH with the null key derivation function. The
/// secret is derived as an object on the token, read, and removed again.
pub struct Pkcs11KeyAgreement<H> {
    key_handle: H,
    key_len: usize,
}

impl<H: Copy> Pkcs11KeyAgreement<H> {
    /// The handle of the key.
    pub closed spec fn spec_key(&self) -> H {
        self.key_handle
    }

    /// The expected length of the shared secret in bytes.
    pub closed spec fn spec_len(&self) -> usize {
        self.key_len
    }

    /// How the key is found by its label.
    pub fn key_query(key_label: &str) -> (r: Locking<ObjectQuery>)
        ensures
            r.next_step().spec_class() == ObjectClass::PrivateKey,
            r.next_step().spec_label() == key_label@,
    {
        Pkcs11Session::find_private_key(key_label)
    }

    /// Binds a key that was found to the length of the shared secret in bytes.
    pub fn new(key_handle: H, key_len: usize) -> (r: Self)
        ensures
            r.spec_key() == key_handle,
            r.spec_len() == key_len,
    {
        Pkcs11KeyAgreement { key_handle, key_len }
    }

    /// Whether a started agreement asks for the derivation of the right key.
    pub open spec fn started(&self, r: Locking<DeriveCall<H>>, peer_public_key: Seq<u8>) -> bool {
        let call = r.next_step();
        &&& call.spec_key() == self.spec_key()
        &&& call.spec_mechanism() == MechanismView::Ecdh1Derive { public_data: peer_public_key }
        &&& call.spec_template() == derive_template(self.spec_len())
    }

    /// Starts agreeing with the owner of a public key.
    pub fn agree(&self, peer_public_key: &[u8]) -> (r: Result<Locking<DeriveCall<H>>>)
        ensures
            self.spec_len() <= 0xffff_ffff ==> r is Ok,
            r matches Ok(l) ==> self.started(l, peer_public_key@),
            r matches Err(e) ==> e@ == ErrorView::Pkcs11(
                "key_len "@ + decimal_text(self.spec_len() as nat) + " too large for Ulong"@,
            ),
    {
        self.agree_if(fits_ulong(self.key_len), peer_public_key)
    }

    /// Starts agreeing, given whether the length of the secret fits the token's
    /// number type.
    pub fn agree_if(&self, fits: bool, peer_public_key: &[u8]) -> (r: Result<Locking<DeriveCall<H>>>)
        ensures
            r is Ok <==> fits,
            r matches Ok(l) ==> self.started(l, peer_public_key@),
            r matches Err(e) ==> e@ == ErrorView::Pkcs11(
                "key_len "@ + decimal_text(self.spec_len() as nat) + " too large for Ulong"@,
            ),
    {
        if !fits {
            let len: String = decimal(self.key_len);
            return Err(Error::Pkcs11(join3("key_len ", len.as_str(), " too large for Ulong")));
        }
        let mut template: Vec<TemplateAttribute> = Vec::new();
        template.push(TemplateAttribute::Class(ObjectClass::SecretKey));
        template.push(TemplateAttribute::GenericSecret);
        template.push(TemplateAttribute::Encrypt(false));
        template.push(TemplateAttribute::Decrypt(false));
        template.push(TemplateAttribute::ValueLen(self.key_len));
        template.push(TemplateAttribute::Extractable(true));
        template.push(TemplateAttribute::Sensitive(false));
        assert(template_view(template@) =~= derive_template(self.key_len));
        Ok(
            Locking::new(
                DeriveCall {
                    key: self.key_handle,
                    mechanism: Mechanism::Ecdh1Derive { public_data: to_vec(peer_public_key) },
                    template,
                },
            ),
        )
    }
}

/// The step after which the secret is derived.
pub struct DeriveCall<H> {
    key: H,
    mechanism: Mechanism,
    template: Vec<TemplateAttribute>,
}

impl<H: Copy> DeriveCall<H> {
    /// The handle of the private key.
    pub closed spec fn spec_key(&self) -> H {
        self.key
    }

    /// The mechanism to derive with.
    pub closed spec fn spec_mechanism(&self) -> MechanismView {
        self.mechanism@
    }

    /// The template of the derived key.
    pub closed spec fn spec_template(&self) -> Seq<TemplateView> {
        template_view(self.template@)
    }

    /// The handle of the private key.
    pub fn key(&self) -> (r: H)
        ensures
            r == self.spec_key(),
    {
        self.key
    }

    /// The mechanism to derive with.
    pub fn mechanism(&self) -> (r: &Mechanism)
        ensures
            r@ == self.spec_mechanism(),
    {
        &self.mechanism
    }

    /// The template of the derived key.
    pub fn template(&self) -> (r: &Vec<TemplateAttribute>)
        ensures
            template_view(r@) == self.spec_template(),
    {
        &self.template
    }

    /// Takes the handle of the derived key.
    pub fn derived(self, reply: core::result::Result<H, String>) -> (r: Result<ValueRead<H>>)
        ensures
            match reply {
                Ok(object) => r is Ok && r->Ok_0.spec_object() == object,
                Err(e) => r is Err && r->Err_0@ == ErrorView::Pkcs11(
                    "C_DeriveKey (ECDH) failed: "@ + e@,
                ),
            },
    {
        match reply {
            Ok(object) => Ok(ValueRead { object }),
            Err(e) => Err(Error::Pkcs11(join2("C_DeriveKey (ECDH) failed: ", e.as_str()))),
        }
    }
}

/// An attribute as the token gives it: a value, or something else.
pub enum TokenAttribute {
    Value(Vec<u8>),
    Other,
}

/// The first value among attributes.
pub open spec fn first_value(attributes: Seq<TokenAttribute>) -> Option<Seq<u8>>
    decreases attributes.len(),
{
    if attributes.len() == 0 {
        None
    } else {
        match attributes[0] {
            TokenAttribute::Value(v) => Some(v@),
            TokenAttribute::Other => first_value(attributes.drop_first()),
        }
    }
}

/// The shared secret among the attributes of the derived key.
pub open spec fn secret_outcome(attributes: Seq<TokenAttribute>) -> core::result::Result<
    Seq<u8>,
    ErrorView,
> {
    match first_value(attributes) {
        Some(v) => Ok(v),
        None => Err(ErrorView::Pkcs11("CKA_VALUE not present on derived ECDH key"@)),
    }
}

/// The step after which the value of the derived key is read.
pub struct ValueRead<H> {
    object: H,
}

impl<H: Copy> ValueRead<H> {
    /// The handle of the derived key.
    pub closed spec fn spec_object(&self) -> H {
        self.object
    }

    /// The handle of the derived key.
    pub fn object(&self) -> (r: H)
        ensures
            r == self.spec_object(),
    {
        self.object
    }

    /// Takes the attributes that were read. Whatever they hold, the derived key is
    /// to be removed; where reading failed, the operation ends with the key left to
    /// the end of the session.
    pub fn read(self, reply: core::result::Result<Vec<TokenAttribute>, String>) -> (r: Result<
        Cleanup<H>,
    >)
        ensures
            match reply {
                Ok(attributes) => {
                    &&& r matches Ok(cleanup)
                    &&& cleanup.spec_object() == self.spec_object()
                    &&& cleanup.spec_outcome() == secret_outcome(attributes@)
                },
                Err(e) => r is Err && r->Err_0@ == ErrorView::Pkcs11(
                    "C_GetAttributeValue failed: "@ + e@,
                ),
            },
    {
        let attributes: Vec<TokenAttribute> = match reply {
            Ok(attributes) => attributes,
            Err(e) => return Err(
                Error::Pkcs11(join2("C_GetAttributeValue failed: ", e.as_str())),
            ),
        };
        let mut i: usize = 0;
        assert(attributes@.skip(0) =~= attributes@);
        #[verifier::loop_isolation(false)]
        while i < attributes.len()
            invariant
                i <= attributes@.len(),
                first_value(attributes@) == first_value(attributes@.skip(i as int)),
            decreases attributes@.len() - i,
        {
            let ghost rest = attributes@.skip(i as int);
            assert(rest.drop_first() =~= attributes@.skip(i + 1));
            match &attributes[i] {
                TokenAttribute::Value(v) => {
                    assert(rest[0] == attributes@[i as int]);
                    return Ok(Cleanup { object: self.object, outcome: Ok(to_vec(v.as_slice())) });
                },
                TokenAttribute::Other => {
                    assert(rest[0] == attributes@[i as int]);
                },
            }
            i = i + 1;
        }
        Ok(
            Cleanup {
                object: self.object,
                outcome: Err(
                    Error::Pkcs11("CKA_VALUE not present on derived ECDH key".to_owned()),
                ),
            },
        )
    }
}

/// The last step: the derived key is removed, with the result in hand.
pub struct Cleanup<H> {
    object: H,
    outcome: Result<Vec<u8>>,
}

impl<H: Copy> Cleanup<H> {
    /// The handle of the derived key.
    pub closed spec fn spec_object(&self) -> H {
        self.object
    }

    /// The result.
    pub closed spec fn spec_outcome(&self) -> core::result::Result<Seq<u8>, ErrorView> {
        crate::error::view_outcome(self.outcome)
    }

    /// The handle of the derived key.
    pub fn object(&self) -> (r: H)
        ensures
            r == self.spec_object(),
    {
        self.object
    }

    /// The result, which does not depend on whether the key could be removed: the
    /// end of the session removes it too.
    pub fn finished(self) -> (r: Result<Vec<u8>>)
        ensures
            crate::error::view_outcome(r) == self.spec_outcome(),
    {
        self.outcome
    }
}

} // verus!
