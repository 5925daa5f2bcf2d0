//! What is asked of a session, and what its replies mean.
use crate::bytes::to_vec;
use crate::error::{Error, ErrorView, Result};
use crate::pkcs11::mechanism::{Mechanism, MechanismView};
use crate::text::{join2, join3};
use vstd::prelude::*;
use vstd::string::StringExecFns;

verus! {

/// A step that needs the session to be locked first.
pub struct Locking<T> {
    next: T,
}

impl<T> Locking<T> {
    /// The step that follows once the session is locked.
    pub closed spec fn next_step(&self) -> T {
        self.next
    }

    /// Puts the lock before a step.
    pub fn new(next: T) -> (r: Locking<T>)
        ensures
            r.next_step() == next,
    {
        Locking { next }
    }

    /// Takes the outcome of locking the session. A lock that another thread left
    /// poisoned ends the operation.
    pub fn locked(self, lock: core::result::Result<(), String>) -> (r: Result<T>)
        ensures
            match lock {
                Ok(_) => r is Ok && r->Ok_0 == self.next_step(),
                Err(e) => r is Err && r->Err_0@ == ErrorView::Pkcs11(
                    "session lock poisoned: "@ + e@,
                ),
            },
    {
        match lock {
            Ok(_) => Ok(self.next),
            Err(e) => Err(Error::Pkcs11(join2("session lock poisoned: ", e.as_str()))),
        }
    }
}

/// The function of the session that a call goes to.
#[derive(Clone, Copy, Debug, PartialEq, Eq, Structural)]
pub enum TokenFunction {
    Sign,
    Encrypt,
    Decrypt,
}

/// What a call is for.
#[derive(Clone, Copy, Debug, PartialEq, Eq, Structural)]
pub enum CallKind {
    Sign,
    HmacSign,
    Encrypt,
    Decrypt,
    KeyWrap,
    KeyUnwrap,
    CbcEncrypt,
    CbcDecrypt,
    GcmEncrypt,
    GcmDecrypt,
}

impl CallKind {
    /// The function that the call goes to.
    pub open spec fn spec_function(self) -> TokenFunction {
        match self {
            CallKind::Sign | CallKind::HmacSign => TokenFunction::Sign,
            CallKind::Encrypt | CallKind::KeyWrap | CallKind::CbcEncrypt | CallKind::GcmEncrypt =>
                TokenFunction::Encrypt,
            CallKind::Decrypt | CallKind::KeyUnwrap | CallKind::CbcDecrypt | CallKind::GcmDecrypt =>
                TokenFunction::Decrypt,
        }
    }

    /// How a failure of the call is introduced.
    pub open spec fn failure_label(self) -> Seq<char> {
        match self {
            CallKind::Sign => "C_Sign failed: "@,
            CallKind::HmacSign => "C_Sign (HMAC) failed: "@,
            CallKind::Encrypt => "C_Encrypt failed: "@,
            CallKind::Decrypt => "C_Decrypt failed: "@,
            CallKind::KeyWrap => "C_Encrypt (key wrap) failed: "@,
            CallKind::KeyUnwrap => "C_Decrypt (key unwrap) failed: "@,
            CallKind::CbcEncrypt => "C_Encrypt (AES-CBC) failed: "@,
            CallKind::CbcDecrypt => "C_Decrypt (AES-CBC) failed: "@,
            CallKind::GcmEncrypt => "C_Encrypt (AES-GCM) failed: "@,
            CallKind::GcmDecrypt => "C_Decrypt (AES-GCM) failed: "@,
        }
    }

    /// The function that the call goes to.
    pub fn function(&self) -> (r: TokenFunction)
        ensures
            r == self.spec_function(),
    {
        match self {
            CallKind::Sign | CallKind::HmacSign => TokenFunction::Sign,
            CallKind::Encrypt | CallKind::KeyWrap | CallKind::CbcEncrypt | CallKind::GcmEncrypt =>
                TokenFunction::Encrypt,
            CallKind::Decrypt | CallKind::KeyUnwrap | CallKind::CbcDecrypt | CallKind::GcmDecrypt =>
                TokenFunction::Decrypt,
        }
    }

    fn label(&self) -> (r: &'static str)
        ensures
            r@ == self.failure_label(),
    {
        match self {
            CallKind::Sign => "C_Sign failed: ",
            CallKind::HmacSign => "C_Sign (HMAC) failed: ",
            CallKind::Encrypt => "C_Encrypt failed: ",
            CallKind::Decrypt => "C_Decrypt failed: ",
            CallKind::KeyWrap => "C_Encrypt (key wrap) failed: ",
            CallKind::KeyUnwrap => "C_Decrypt (key unwrap) failed: ",
            CallKind::CbcEncrypt => "C_Encrypt (AES-CBC) failed: ",
            CallKind::CbcDecrypt => "C_Decrypt (AES-CBC) failed: ",
            CallKind::GcmEncrypt => "C_Encrypt (AES-GCM) failed: ",
            CallKind::GcmDecrypt => "C_Decrypt (AES-GCM) failed: ",
        }
    }
}

/// What the session makes of a call that gives bytes.
pub enum CallReply {
    Output(Vec<u8>),
    /// The parameters of the mechanism could not be put together.
    ParamsRejected(String),
    Failed(String),
}

/// A call that gives bytes: `function` of the kind, with a mechanism, on a key,
/// over data.
pub struct TokenCall<H> {
    pub kind: CallKind,
    pub mechanism: Mechanism,
    pub key: H,
    pub data: Vec<u8>,
}

/// The content of a [`TokenCall`].
pub ghost struct CallView<H> {
    pub kind: CallKind,
    pub mechanism: MechanismView,
    pub key: H,
    pub data: Seq<u8>,
}

impl<H> View for TokenCall<H> {
    type V = CallView<H>;

    open spec fn view(&self) -> CallView<H> {
        CallView {
            kind: self.kind,
            mechanism: self.mechanism@,
            key: self.key,
            data: self.data@,
        }
    }
}

/// What a reply to a call of a kind means.
pub open spec fn reply_outcome(kind: CallKind, reply: CallReply) -> core::result::Result<
    Seq<u8>,
    ErrorView,
> {
    match reply {
        CallReply::Output(bytes) => Ok(bytes@),
        CallReply::ParamsRejected(e) => Err(ErrorView::Pkcs11("GcmParams::new failed: "@ + e@)),
        CallReply::Failed(e) => Err(ErrorView::Pkcs11(kind.failure_label() + e@)),
    }
}

impl<H> TokenCall<H> {
    /// Takes the session's reply.
    pub fn finished(&self, reply: CallReply) -> (r: Result<Vec<u8>>)
        ensures
            crate::error::view_outcome(r) == reply_outcome(self.kind, reply),
    {
        match reply {
            CallReply::Output(bytes) => Ok(bytes),
            CallReply::ParamsRejected(e) => Err(
                Error::Pkcs11(join2("GcmParams::new failed: ", e.as_str())),
            ),
            CallReply::Failed(e) => Err(Error::Pkcs11(join2(self.kind.label(), e.as_str()))),
        }
    }
}

/// A first step, by its content: an error, or the call to make once the session is
/// locked.
pub open spec fn call_outcome<H>(r: Result<Locking<TokenCall<H>>>) -> core::result::Result<
    CallView<H>,
    ErrorView,
> {
    match r {
        Ok(l) => Ok(l.next_step()@),
        Err(e) => Err(e@),
    }
}

/// What the session makes of a verification.
pub enum VerifyReply {
    Valid,
    SignatureInvalid,
    SignatureLenRange,
    Failed(String),
}

/// A verification of a signature over data, with a mechanism and a key.
pub struct VerifyCall<H> {
    /// Whether the signature is an authentication code.
    pub hmac: bool,
    pub mechanism: Mechanism,
    pub key: H,
    pub data: Vec<u8>,
    pub signature: Vec<u8>,
}

/// The content of a [`VerifyCall`].
pub ghost struct VerifyView<H> {
    pub hmac: bool,
    pub mechanism: MechanismView,
    pub key: H,
    pub data: Seq<u8>,
    pub signature: Seq<u8>,
}

impl<H> View for VerifyCall<H> {
    type V = VerifyView<H>;

    open spec fn view(&self) -> VerifyView<H> {
        VerifyView {
            hmac: self.hmac,
            mechanism: self.mechanism@,
            key: self.key,
            data: self.data@,
            signature: self.signature@,
        }
    }
}

/// What a reply to a verification means: a signature that is wrong, or of a wrong
/// length, is an answer and no failure.
pub open spec fn verify_reply_outcome(hmac: bool, reply: VerifyReply) -> core::result::Result<
    bool,
    ErrorView,
> {
    match reply {
        VerifyReply::Valid => Ok(true),
        VerifyReply::SignatureInvalid => Ok(false),
        VerifyReply::SignatureLenRange => Ok(false),
        VerifyReply::Failed(e) => Err(
            ErrorView::Pkcs11(
                (if hmac {
                    "C_Verify (HMAC) failed: "@
                } else {
                    "C_Verify failed: "@
                }) + e@,
            ),
        ),
    }
}

impl<H> VerifyCall<H> {
    /// Takes the session's reply.
    pub fn finished(&self, reply: VerifyReply) -> (r: Result<bool>)
        ensures
            crate::error::outcome(r) == verify_reply_outcome(self.hmac, reply),
    {
        match reply {
            VerifyReply::Valid => Ok(true),
            VerifyReply::SignatureInvalid => Ok(false),
            VerifyReply::SignatureLenRange => Ok(false),
            VerifyReply::Failed(e) => {
                let label: &str = if self.hmac {
                    "C_Verify (HMAC) failed: "
                } else {
                    "C_Verify failed: "
                };
                Err(Error::Pkcs11(join2(label, e.as_str())))
            },
        }
    }
}

/// A first step, by its content: an error, or the verification to make once the
/// session is locked.
pub open spec fn verify_call_outcome<H>(r: Result<Locking<VerifyCall<H>>>) -> core::result::Result<
    VerifyView<H>,
    ErrorView,
> {
    match r {
        Ok(l) => Ok(l.next_step()@),
        Err(e) => Err(e@),
    }
}

/// A class of token objects.
#[derive(Clone, Copy, Debug, PartialEq, Eq, Structural)]
pub enum ObjectClass {
    PrivateKey,
    PublicKey,
    SecretKey,
}

impl ObjectClass {
    /// The class's PKCS#11 name.
    pub open spec fn name_text(self) -> Seq<char> {
        match self {
            ObjectClass::PrivateKey => "CKO_PRIVATE_KEY"@,
            ObjectClass::PublicKey => "CKO_PUBLIC_KEY"@,
            ObjectClass::SecretKey => "CKO_SECRET_KEY"@,
        }
    }

    /// The class's PKCS#11 name.
    pub fn name(&self) -> (r: &'static str)
        ensures
            r@ == self.name_text(),
    {
        match self {
            ObjectClass::PrivateKey => "CKO_PRIVATE_KEY",
            ObjectClass::PublicKey => "CKO_PUBLIC_KEY",
            ObjectClass::SecretKey => "CKO_SECRET_KEY",
        }
    }
}

/// An attribute in a template: what an object is searched by or made with.
#[derive(Debug)]
pub enum TemplateAttribute {
    Class(ObjectClass),
    Label(Vec<u8>),
    /// The key is a generic secret.
    GenericSecret,
    Encrypt(bool),
    Decrypt(bool),
    ValueLen(usize),
    Extractable(bool),
    Sensitive(bool),
}

/// The content of a [`TemplateAttribute`].
#[verifier::ext_equal]
pub ghost enum TemplateView {
    Class(ObjectClass),
    Label(Seq<u8>),
    GenericSecret,
    Encrypt(bool),
    Decrypt(bool),
    ValueLen(usize),
    Extractable(bool),
    Sensitive(bool),
}

impl View for TemplateAttribute {
    type V = TemplateView;

    open spec fn view(&self) -> TemplateView {
        match self {
            TemplateAttribute::Class(c) => TemplateView::Class(*c),
            TemplateAttribute::Label(l) => TemplateView::Label(l@),
            TemplateAttribute::GenericSecret => TemplateView::GenericSecret,
            TemplateAttribute::Encrypt(b) => TemplateView::Encrypt(*b),
            TemplateAttribute::Decrypt(b) => TemplateView::Decrypt(*b),
            TemplateAttribute::ValueLen(n) => TemplateView::ValueLen(*n),
            TemplateAttribute::Extractable(b) => TemplateView::Extractable(*b),
            TemplateAttribute::Sensitive(b) => TemplateView::Sensitive(*b),
        }
    }
}

/// The contents of a template's attributes.
pub open spec fn template_view(template: Seq<TemplateAttribute>) -> Seq<TemplateView> {
    Seq::new(template.len(), |i: int| template[i]@)
}

/// A search for an object by class and label.
pub struct ObjectQuery {
    class: ObjectClass,
    label: String,
}

/// The template that an object of a class and a label is searched by.
pub open spec fn query_template(class: ObjectClass, label: Seq<char>) -> Seq<TemplateView> {
    seq![TemplateView::Class(class), TemplateView::Label(vstd::utf8::encode_utf8(label))]
}

/// What the objects that were found mean: the first one is taken.
pub open spec fn found_outcome<H>(
    class: ObjectClass,
    label: Seq<char>,
    reply: core::result::Result<Vec<H>, String>,
) -> core::result::Result<H, ErrorView> {
    match reply {
        Ok(objects) => if objects@.len() > 0 {
            Ok(objects@[0])
        } else {
            Err(
                ErrorView::Pkcs11(
                    "no "@ + class.name_text() + " object found with label \""@ + label + "\""@,
                ),
            )
        },
        Err(e) => Err(ErrorView::Pkcs11("C_FindObjects failed: "@ + e@)),
    }
}

impl ObjectQuery {
    /// The class that is searched for.
    pub closed spec fn spec_class(&self) -> ObjectClass {
        self.class
    }

    /// The label that is searched for.
    pub closed spec fn spec_label(&self) -> Seq<char> {
        self.label@
    }

    /// A search for an object by class and label.
    pub fn new(class: ObjectClass, label: &str) -> (r: ObjectQuery)
        ensures
            r.spec_class() == class,
            r.spec_label() == label@,
    {
        ObjectQuery { class, label: label.to_owned() }
    }

    /// The template to search by.
    pub fn template(&self) -> (r: Vec<TemplateAttribute>)
        ensures
            template_view(r@) == query_template(self.spec_class(), self.spec_label()),
    {
        let mut template: Vec<TemplateAttribute> = Vec::new();
        template.push(TemplateAttribute::Class(self.class));
        template.push(TemplateAttribute::Label(to_vec(self.label.as_str().as_bytes())));
        assert(template_view(template@) =~= query_template(self.spec_class(), self.spec_label()));
        template
    }

    /// Takes the objects that were found.
    pub fn finished<H: Copy>(&self, reply: core::result::Result<Vec<H>, String>) -> (r: Result<H>)
        ensures
            crate::error::outcome(r) == found_outcome(
                self.spec_class(),
                self.spec_label(),
                reply,
            ),
    {
        match reply {
            Ok(objects) => {
                if objects.len() > 0 {
                    Ok(objects[0])
                } else {
                    let head: String = join3("no ", self.class.name(), " object found with label \"");
                    Err(Error::Pkcs11(head.concat(self.label.as_str()).concat("\"")))
                }
            },
            Err(e) => Err(Error::Pkcs11(join2("C_FindObjects failed: ", e.as_str()))),
        }
    }
}

} // verus!
