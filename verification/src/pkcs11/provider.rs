//! Loading a PKCS#11 library, opening a session, and finding keys.
use crate::error::{Error, ErrorView, Result};
use crate::pkcs11::request::{Locking, ObjectClass, ObjectQuery};
use crate::secret::SecretText;
use crate::text::join2;
use vstd::prelude::*;

verus! {

/// The step after which the library is loaded; `L` is the type of paths.
pub struct LibraryLoad<L> {
    library_path: L,
}

/// The step after which the library is initialized.
pub struct LibraryInitialize {}

/// The step after which the slots with an initialized token are known.
pub struct SlotSearch {}

/// What the library makes of its initialization.
pub enum InitializeReply {
    Done,
    /// Someone in the process has initialized the library before.
    AlreadyInitialized,
    Failed(String),
}

/// A step that was passed, or its failure with the token's text behind `label`.
pub open spec fn passed<T>(
    r: Result<T>,
    reply: core::result::Result<(), String>,
    label: Seq<char>,
) -> bool {
    match reply {
        Ok(_) => r is Ok,
        Err(e) => r is Err && r->Err_0@ == ErrorView::Pkcs11(label + e@),
    }
}

impl<L: Copy> LibraryLoad<L> {
    /// The path of the library to load.
    pub closed spec fn spec_library_path(&self) -> L {
        self.library_path
    }

    /// The path of the library to load.
    pub fn library_path(&self) -> (r: L)
        ensures
            r == self.spec_library_path(),
    {
        self.library_path
    }

    /// Takes the outcome of loading the library.
    pub fn loaded(self, reply: core::result::Result<(), String>) -> (r: Result<LibraryInitialize>)
        ensures
            passed(r, reply, "failed to load PKCS#11 library: "@),
    {
        match reply {
            Ok(_) => Ok(LibraryInitialize {  }),
            Err(e) => Err(Error::Pkcs11(join2("failed to load PKCS#11 library: ", e.as_str()))),
        }
    }
}

impl LibraryInitialize {
    /// Takes the outcome of initializing the library. That it was initialized
    /// before is a success.
    pub fn initialized(self, reply: InitializeReply) -> (r: Result<SlotSearch>)
        ensures
            match reply {
                InitializeReply::Failed(e) => r is Err && r->Err_0@ == ErrorView::Pkcs11(
                    "C_Initialize failed: "@ + e@,
                ),
                _ => r is Ok,
            },
    {
        match reply {
            InitializeReply::Done => Ok(SlotSearch {  }),
            InitializeReply::AlreadyInitialized => Ok(SlotSearch {  }),
            InitializeReply::Failed(e) => Err(
                Error::Pkcs11(join2("C_Initialize failed: ", e.as_str())),
            ),
        }
    }
}

impl SlotSearch {
    /// Takes the slots with an initialized token: the first one is selected.
    pub fn found<S: Copy>(self, reply: core::result::Result<Vec<S>, String>) -> (r: Result<
        Pkcs11Provider<S>,
    >)
        ensures
            match reply {
                Ok(slots) => if slots@.len() > 0 {
                    r is Ok && r->Ok_0.spec_slot() == slots@[0]
                } else {
                    r is Err && r->Err_0@ == ErrorView::Pkcs11(
                        "no slots with initialized token found"@,
                    )
                },
                Err(e) => r is Err && r->Err_0@ == ErrorView::Pkcs11(
                    "C_GetSlotList failed: "@ + e@,
                ),
            },
    {
        match reply {
            Ok(slots) => {
                if slots.len() > 0 {
                    Ok(Pkcs11Provider { slot: slots[0] })
                } else {
                    Err(Error::Pkcs11("no slots with initialized token found".to_owned()))
                }
            },
            Err(e) => Err(Error::Pkcs11(join2("C_GetSlotList failed: ", e.as_str()))),
        }
    }
}

/// A library that is ready, with the slot that was selected; `S` is the type of
/// slots.
pub struct Pkcs11Provider<S> {
    slot: S,
}

/// What the text of the error is with which `core::str::from_utf8` refuses bytes.
pub uninterp spec fn utf8_error_text(bytes: Seq<u8>) -> Seq<char>;

/// Calls `core::str::from_utf8`. Claims that it takes exactly the bytes that are
/// UTF-8, as the text they encode, and that the error's text follows from the
/// bytes.
#[verifier::external_body]
fn from_utf8(bytes: &[u8]) -> (r: core::result::Result<&str, String>)
    ensures
        r is Ok <==> vstd::utf8::valid_utf8(bytes@),
        r matches Ok(text) ==> text@ == vstd::utf8::decode_utf8(bytes@),
        r matches Err(e) ==> e@ == utf8_error_text(bytes@),
{
    core::str::from_utf8(bytes).map_err(|e| e.to_string())
}

/// The text of a PIN, or why it has none.
pub open spec fn pin_outcome(pin: Seq<u8>) -> core::result::Result<Seq<char>, ErrorView> {
    if vstd::utf8::valid_utf8(pin) {
        Ok(vstd::utf8::decode_utf8(pin))
    } else {
        Err(ErrorView::Pkcs11("PKCS#11 PIN must be valid UTF-8: "@ + utf8_error_text(pin)))
    }
}

impl<S: Copy> Pkcs11Provider<S> {
    /// The slot that was selected.
    pub closed spec fn spec_slot(&self) -> S {
        self.slot
    }

    /// Starts making a provider of the library at `library_path`: that is what is
    /// to be loaded.
    pub fn new<L: Copy>(library_path: L) -> (r: LibraryLoad<L>)
        ensures
            r.spec_library_path() == library_path,
    {
        LibraryLoad { library_path }
    }

    /// The slot that was selected.
    pub fn slot(&self) -> (r: S)
        ensures
            r == self.spec_slot(),
    {
        self.slot
    }

    /// Starts opening a session with a PIN.
    pub fn open_session(&self, pin: &str) -> (r: Result<SessionOpen<S>>)
        ensures
            r is Ok,
            r->Ok_0.spec_slot() == self.spec_slot(),
            r->Ok_0.spec_pin() == pin@,
    {
        proof {
            vstd::utf8::encode_utf8_valid_utf8(pin@);
            vstd::utf8::encode_utf8_decode_utf8(pin@);
        }
        self.open_session_bytes(pin.as_bytes())
    }

    /// Starts opening a session with a PIN given as bytes, which must be UTF-8.
    pub fn open_session_bytes(&self, pin: &[u8]) -> (r: Result<SessionOpen<S>>)
        ensures
            match pin_outcome(pin@) {
                Ok(text) => {
                    &&& r is Ok
                    &&& r->Ok_0.spec_slot() == self.spec_slot()
                    &&& r->Ok_0.spec_pin() == text
                },
                Err(e) => r is Err && r->Err_0@ == e,
            },
    {
        self.open_session_parsed(from_utf8(pin))
    }

    /// Starts opening a session, given the text of the PIN or why it has none.
    pub fn open_session_parsed(&self, text: core::result::Result<&str, String>) -> (r: Result<
        SessionOpen<S>,
    >)
        ensures
            match text {
                Ok(pin) => {
                    &&& r is Ok
                    &&& r->Ok_0.spec_slot() == self.spec_slot()
                    &&& r->Ok_0.spec_pin() == pin@
                },
                Err(e) => r is Err && r->Err_0@ == ErrorView::Pkcs11(
                    "PKCS#11 PIN must be valid UTF-8: "@ + e@,
                ),
            },
    {
        match text {
            Ok(pin) => Ok(SessionOpen { slot: self.slot, pin: SecretText::new(pin.to_owned()) }),
            Err(e) => Err(Error::Pkcs11(join2("PKCS#11 PIN must be valid UTF-8: ", e.as_str()))),
        }
    }
}

/// The step after which a read-write session is open on the slot.
pub struct SessionOpen<S> {
    slot: S,
    pin: SecretText,
}

impl<S: Copy> SessionOpen<S> {
    /// The slot to open a session on.
    pub closed spec fn spec_slot(&self) -> S {
        self.slot
    }

    /// The PIN to log in with afterwards.
    pub closed spec fn spec_pin(&self) -> Seq<char> {
        self.pin@
    }

    /// The slot to open a session on.
    pub fn slot(&self) -> (r: S)
        ensures
            r == self.spec_slot(),
    {
        self.slot
    }

    /// Takes the outcome of opening the session. Where that failed, the PIN is
    /// dropped, and so wiped.
    pub fn opened(self, reply: core::result::Result<(), String>) -> (r: Result<SessionLogin>)
        ensures
            passed(r, reply, "C_OpenSession failed: "@),
            r matches Ok(login) ==> login.spec_pin() == self.spec_pin(),
    {
        match reply {
            Ok(_) => Ok(SessionLogin { pin: self.pin }),
            Err(e) => Err(Error::Pkcs11(join2("C_OpenSession failed: ", e.as_str()))),
        }
    }
}

/// The step after which the user is logged in with the PIN.
pub struct SessionLogin {
    pin: SecretText,
}

impl SessionLogin {
    /// The PIN to log in with.
    pub closed spec fn spec_pin(&self) -> Seq<char> {
        self.pin@
    }

    /// The PIN to log in with.
    pub fn pin(&self) -> (r: &str)
        ensures
            r@ == self.spec_pin(),
    {
        self.pin.as_str()
    }

    /// Takes the outcome of logging in. The PIN is dropped, and so wiped.
    pub fn logged_in(self, reply: core::result::Result<(), String>) -> (r: Result<Pkcs11Session>)
        ensures
            passed(r, reply, "C_Login failed: "@),
    {
        match reply {
            Ok(_) => Ok(Pkcs11Session {  }),
            Err(e) => Err(Error::Pkcs11(join2("C_Login failed: ", e.as_str()))),
        }
    }
}

/// A session that a user is logged in to.
pub struct Pkcs11Session {}

impl Pkcs11Session {
    /// Starts finding a private key by label.
    pub fn find_private_key(label: &str) -> (r: Locking<ObjectQuery>)
        ensures
            r.next_step().spec_class() == ObjectClass::PrivateKey,
            r.next_step().spec_label() == label@,
    {
        Locking::new(ObjectQuery::new(ObjectClass::PrivateKey, label))
    }

    /// Starts finding a public key by label.
    pub fn find_public_key(label: &str) -> (r: Locking<ObjectQuery>)
        ensures
            r.next_step().spec_class() == ObjectClass::PublicKey,
            r.next_step().spec_label() == label@,
    {
        Locking::new(ObjectQuery::new(ObjectClass::PublicKey, label))
    }

    /// Starts finding a secret (symmetric) key by label.
    pub fn find_secret_key(label: &str) -> (r: Locking<ObjectQuery>)
        ensures
            r.next_step().spec_class() == ObjectClass::SecretKey,
            r.next_step().spec_label() == label@,
    {
        Locking::new(ObjectQuery::new(ObjectClass::SecretKey, label))
    }
}

} // verus!
