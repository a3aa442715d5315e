//! The WebIDL `DOMException` interface and its legacy numeric error codes.

use vstd::prelude::*;
use crate::value::ObjectRef;

verus! {

/// Compares two string slices by their characters.
pub fn str_eq(a: &str, b: &str) -> (r: bool)
    ensures
        r == (a@ == b@),
{
    let n = a.unicode_len();
    if n != b.unicode_len() {
        return false;
    }
    let mut i: usize = 0;
    while i < n
        invariant
            n == a@.len(),
            n == b@.len(),
            i <= n,
            forall|j: int| 0 <= j < i ==> a@[j] == b@[j],
        decreases n - i,
    {
        if a.get_char(i) != b.get_char(i) {
            return false;
        }
        i = i + 1;
    }
    assert(a@ =~= b@);
    true
}

/// Legacy error codes for `DOMException`, kept by WebIDL for backwards compatibility.
#[derive(Debug, Clone, Copy, PartialEq, Eq, Structural)]
pub enum Code {
    /// Index or size is negative or greater than the allowed value.
    IndexSizeErr,
    /// The operation would yield an incorrect node tree.
    HierarchyRequestErr,
    /// The object is in the wrong document.
    WrongDocumentErr,
    /// The string contains invalid characters.
    InvalidCharacterErr,
    /// The object cannot be modified.
    NoModificationAllowedErr,
    /// The object cannot be found here.
    NotFoundErr,
    /// The operation is not supported.
    NotSupportedErr,
    /// The attribute is in use by another element.
    InuseAttributeErr,
    /// The object is in an invalid state.
    InvalidStateErr,
    /// The string did not match the expected pattern.
    SyntaxErr,
    /// The object cannot be modified in this way.
    InvalidModificationErr,
    /// The operation is not allowed by namespaces in XML.
    NamespaceErr,
    /// The object does not support the operation or argument.
    InvalidAccessErr,
    /// The type of the object does not match the expected type.
    TypeMismatchErr,
    /// The operation is insecure.
    SecurityErr,
    /// A network error occurred.
    NetworkErr,
    /// The operation was aborted.
    AbortErr,
    /// The given URL does not match another URL.
    UrlMismatchErr,
    /// The quota has been exceeded.
    QuotaExceededErr,
    /// The operation timed out.
    TimeoutErr,
    /// The supplied node is incorrect or has an incorrect ancestor for this operation.
    InvalidNodeTypeErr,
    /// The object cannot be cloned.
    DataCloneErr,
}

/// The numeric value of a legacy code.
pub open spec fn code_value(c: Code) -> u16 {
    match c {
        Code::IndexSizeErr => 1,
        Code::HierarchyRequestErr => 3,
        Code::WrongDocumentErr => 4,
        Code::InvalidCharacterErr => 5,
        Code::NoModificationAllowedErr => 7,
        Code::NotFoundErr => 8,
        Code::NotSupportedErr => 9,
        Code::InuseAttributeErr => 10,
        Code::InvalidStateErr => 11,
        Code::SyntaxErr => 12,
        Code::InvalidModificationErr => 13,
        Code::NamespaceErr => 14,
        Code::InvalidAccessErr => 15,
        Code::TypeMismatchErr => 17,
        Code::SecurityErr => 18,
        Code::NetworkErr => 19,
        Code::AbortErr => 20,
        Code::UrlMismatchErr => 21,
        Code::QuotaExceededErr => 22,
        Code::TimeoutErr => 23,
        Code::InvalidNodeTypeErr => 24,
        Code::DataCloneErr => 25,
    }
}

/// The exception name that a legacy code belongs to.
pub open spec fn code_name(c: Code) -> Seq<char> {
    match c {
        Code::IndexSizeErr => "IndexSizeError"@,
        Code::HierarchyRequestErr => "HierarchyRequestError"@,
        Code::WrongDocumentErr => "WrongDocumentError"@,
        Code::InvalidCharacterErr => "InvalidCharacterError"@,
        Code::NoModificationAllowedErr => "NoModificationAllowedError"@,
        Code::NotFoundErr => "NotFoundError"@,
        Code::NotSupportedErr => "NotSupportedError"@,
        Code::InuseAttributeErr => "InUseAttributeError"@,
        Code::InvalidStateErr => "InvalidStateError"@,
        Code::SyntaxErr => "SyntaxError"@,
        Code::InvalidModificationErr => "InvalidModificationError"@,
        Code::NamespaceErr => "NamespaceError"@,
        Code::InvalidAccessErr => "InvalidAccessError"@,
        Code::TypeMismatchErr => "TypeMismatchError"@,
        Code::SecurityErr => "SecurityError"@,
        Code::NetworkErr => "NetworkError"@,
        Code::AbortErr => "AbortError"@,
        Code::UrlMismatchErr => "URLMismatchError"@,
        Code::QuotaExceededErr => "QuotaExceededError"@,
        Code::TimeoutErr => "TimeoutError"@,
        Code::InvalidNodeTypeErr => "InvalidNodeTypeError"@,
        Code::DataCloneErr => "DataCloneError"@,
    }
}

/// The legacy code of an exception name, if the name has one.
pub open spec fn code_for_name(name: Seq<char>) -> Option<Code> {
    if name == "IndexSizeError"@ {
        Some(Code::IndexSizeErr)
    } else if name == "HierarchyRequestError"@ {
        Some(Code::HierarchyRequestErr)
    } else if name == "WrongDocumentError"@ {
        Some(Code::WrongDocumentErr)
    } else if name == "InvalidCharacterError"@ {
        Some(Code::InvalidCharacterErr)
    } else if name == "NoModificationAllowedError"@ {
        Some(Code::NoModificationAllowedErr)
    } else if name == "NotFoundError"@ {
        Some(Code::NotFoundErr)
    } else if name == "NotSupportedError"@ {
        Some(Code::NotSupportedErr)
    } else if name == "InUseAttributeError"@ {
        Some(Code::InuseAttributeErr)
    } else if name == "InvalidStateError"@ {
        Some(Code::InvalidStateErr)
    } else if name == "SyntaxError"@ {
        Some(Code::SyntaxErr)
    } else if name == "InvalidModificationError"@ {
        Some(Code::InvalidModificationErr)
    } else if name == "NamespaceError"@ {
        Some(Code::NamespaceErr)
    } else if name == "InvalidAccessError"@ {
        Some(Code::InvalidAccessErr)
    } else if name == "TypeMismatchError"@ {
        Some(Code::TypeMismatchErr)
    } else if name == "SecurityError"@ {
        Some(Code::SecurityErr)
    } else if name == "NetworkError"@ {
        Some(Code::NetworkErr)
    } else if name == "AbortError"@ {
        Some(Code::AbortErr)
    } else if name == "URLMismatchError"@ {
        Some(Code::UrlMismatchErr)
    } else if name == "QuotaExceededError"@ {
        Some(Code::QuotaExceededErr)
    } else if name == "TimeoutError"@ {
        Some(Code::TimeoutErr)
    } else if name == "InvalidNodeTypeError"@ {
        Some(Code::InvalidNodeTypeErr)
    } else if name == "DataCloneError"@ {
        Some(Code::DataCloneErr)
    } else {
        None
    }
}

impl Code {
    /// The numeric value of this code.
    pub fn code(self) -> (r: u16)
        ensures
            r == code_value(self),
    {
        match self {
            Code::IndexSizeErr => 1,
            Code::HierarchyRequestErr => 3,
            Code::WrongDocumentErr => 4,
            Code::InvalidCharacterErr => 5,
            Code::NoModificationAllowedErr => 7,
            Code::NotFoundErr => 8,
            Code::NotSupportedErr => 9,
            Code::InuseAttributeErr => 10,
            Code::InvalidStateErr => 11,
            Code::SyntaxErr => 12,
            Code::InvalidModificationErr => 13,
            Code::NamespaceErr => 14,
            Code::InvalidAccessErr => 15,
            Code::TypeMismatchErr => 17,
            Code::SecurityErr => 18,
            Code::NetworkErr => 19,
            Code::AbortErr => 20,
            Code::UrlMismatchErr => 21,
            Code::QuotaExceededErr => 22,
            Code::TimeoutErr => 23,
            Code::InvalidNodeTypeErr => 24,
            Code::DataCloneErr => 25,
        }
    }

    /// Looks an exception name up in the table of legacy names.
    ///
    /// Returns `Some(code)` for a known name and `None` for any other name.
    pub fn from_name(name: &str) -> (r: Option<Code>)
        ensures
            r == code_for_name(name@),
            r matches Some(c) ==> name@ == code_name(c),
            r is None ==> forall|c: Code| name@ != code_name(c),
    {
        proof {
            lemma_code_for_name_sound(name@);
        }
        if str_eq(name, "IndexSizeError") {
            Some(Code::IndexSizeErr)
        } else if str_eq(name, "HierarchyRequestError") {
            Some(Code::HierarchyRequestErr)
        } else if str_eq(name, "WrongDocumentError") {
            Some(Code::WrongDocumentErr)
        } else if str_eq(name, "InvalidCharacterError") {
            Some(Code::InvalidCharacterErr)
        } else if str_eq(name, "NoModificationAllowedError") {
            Some(Code::NoModificationAllowedErr)
        } else if str_eq(name, "NotFoundError") {
            Some(Code::NotFoundErr)
        } else if str_eq(name, "NotSupportedError") {
            Some(Code::NotSupportedErr)
        } else if str_eq(name, "InUseAttributeError") {
            Some(Code::InuseAttributeErr)
        } else if str_eq(name, "InvalidStateError") {
            Some(Code::InvalidStateErr)
        } else if str_eq(name, "SyntaxError") {
            Some(Code::SyntaxErr)
        } else if str_eq(name, "InvalidModificationError") {
            Some(Code::InvalidModificationErr)
        } else if str_eq(name, "NamespaceError") {
            Some(Code::NamespaceErr)
        } else if str_eq(name, "InvalidAccessError") {
            Some(Code::InvalidAccessErr)
        } else if str_eq(name, "TypeMismatchError") {
            Some(Code::TypeMismatchErr)
        } else if str_eq(name, "SecurityError") {
            Some(Code::SecurityErr)
        } else if str_eq(name, "NetworkError") {
            Some(Code::NetworkErr)
        } else if str_eq(name, "AbortError") {
            Some(Code::AbortErr)
        } else if str_eq(name, "URLMismatchError") {
            Some(Code::UrlMismatchErr)
        } else if str_eq(name, "QuotaExceededError") {
            Some(Code::QuotaExceededErr)
        } else if str_eq(name, "TimeoutError") {
            Some(Code::TimeoutErr)
        } else if str_eq(name, "InvalidNodeTypeError") {
            Some(Code::InvalidNodeTypeErr)
        } else if str_eq(name, "DataCloneError") {
            Some(Code::DataCloneErr)
        } else {
            None
        }
    }
}

/// The `DOMException` interface: an error raised by a DOM operation.
#[derive(Debug, Clone)]
pub struct DOMException {
    /// The `message` attribute.
    pub message: String,
    /// The `name` attribute.
    pub name: String,
}

/// The legacy code that an exception with this name reports: its table entry, or 0.
pub open spec fn spec_code_of_name(name: Seq<char>) -> u16 {
    match code_for_name(name) {
        Some(c) => code_value(c),
        None => 0,
    }
}

impl DOMException {
    /// Legacy error code for `IndexSizeError` (value: 1).
    pub const INDEX_SIZE_ERR: u16 = 1;

    /// Legacy error code for `HierarchyRequestError` (value: 3).
    pub const HIERARCHY_REQUEST_ERR: u16 = 3;

    /// Legacy error code for `WrongDocumentError` (value: 4).
    pub const WRONG_DOCUMENT_ERR: u16 = 4;

    /// Legacy error code for `InvalidCharacterError` (value: 5).
    pub const INVALID_CHARACTER_ERR: u16 = 5;

    /// Legacy error code for `NoModificationAllowedError` (value: 7).
    pub const NO_MODIFICATION_ALLOWED_ERR: u16 = 7;

    /// Legacy error code for `NotFoundError` (value: 8).
    pub const NOT_FOUND_ERR: u16 = 8;

    /// Legacy error code for `NotSupportedError` (value: 9).
    pub const NOT_SUPPORTED_ERR: u16 = 9;

    /// Legacy error code for `InUseAttributeError` (value: 10).
    pub const INUSE_ATTRIBUTE_ERR: u16 = 10;

    /// Legacy error code for `InvalidStateError` (value: 11).
    pub const INVALID_STATE_ERR: u16 = 11;

    /// Legacy error code for `SyntaxError` (value: 12).
    pub const SYNTAX_ERR: u16 = 12;

    /// Legacy error code for `InvalidModificationError` (value: 13).
    pub const INVALID_MODIFICATION_ERR: u16 = 13;

    /// Legacy error code for `NamespaceError` (value: 14).
    pub const NAMESPACE_ERR: u16 = 14;

    /// Legacy error code for `InvalidAccessError` (value: 15).
    pub const INVALID_ACCESS_ERR: u16 = 15;

    /// Legacy error code for `TypeMismatchError` (value: 17).
    pub const TYPE_MISMATCH_ERR: u16 = 17;

    /// Legacy error code for `SecurityError` (value: 18).
    pub const SECURITY_ERR: u16 = 18;

    /// Legacy error code for `NetworkError` (value: 19).
    pub const NETWORK_ERR: u16 = 19;

    /// Legacy error code for `AbortError` (value: 20).
    pub const ABORT_ERR: u16 = 20;

    /// Legacy error code for `URLMismatchError` (value: 21).
    pub const URL_MISMATCH_ERR: u16 = 21;

    /// Legacy error code for `QuotaExceededError` (value: 22).
    pub const QUOTA_EXCEEDED_ERR: u16 = 22;

    /// Legacy error code for `TimeoutError` (value: 23).
    pub const TIMEOUT_ERR: u16 = 23;

    /// Legacy error code for `InvalidNodeTypeError` (value: 24).
    pub const INVALID_NODE_TYPE_ERR: u16 = 24;

    /// Legacy error code for `DataCloneError` (value: 25).
    pub const DATA_CLONE_ERR: u16 = 25;

    /// The constructor `new DOMException(message, name)`.
    ///
    /// A missing message becomes the empty string and a missing name becomes `"Error"`.
    pub fn constructor(message: Option<String>, name: Option<String>) -> (r: DOMException)
        ensures
            r.message@ == (match message {
                Some(m) => m@,
                None => Seq::<char>::empty(),
            }),
            r.name@ == (match name {
                Some(n) => n@,
                None => "Error"@,
            }),
    {
        let message = match message {
            Some(m) => m,
            None => String::new(),
        };
        let name = match name {
            Some(n) => n,
            None => String::from_str("Error"),
        };
        DOMException { message, name }
    }

    /// The `message` getter.
    pub fn message(&self) -> (r: String)
        ensures
            r@ == self.message@,
    {
        self.message.clone()
    }

    /// The `name` getter.
    pub fn name(&self) -> (r: String)
        ensures
            r@ == self.name@,
    {
        self.name.clone()
    }

    /// The `code` getter: the legacy code of the name, or 0 when the name has none.
    pub fn code(&self) -> (r: u16)
        ensures
            r == spec_code_of_name(self.name@),
            forall|c: Code| self.name@ == code_name(c) ==> r == code_value(c),
            (forall|c: Code| self.name@ != code_name(c)) ==> r == 0,
    {
        proof {
            lemma_code_for_name_sound(self.name@);
            assert forall|c: Code| self.name@ == code_name(c) implies spec_code_of_name(self.name@) == code_value(c) by {
                lemma_code_name_roundtrip(c);
            }
        }
        match Code::from_name(self.name.as_str()) {
            Some(c) => c.code(),
            None => 0,
        }
    }
}

/// Every legacy code has its own numeric value: two codes with the same value are the same code.
pub proof fn lemma_code_values_distinct(a: Code, b: Code)
    ensures
        code_value(a) == code_value(b) ==> a == b,
{
}

/// Looking up the name that belongs to a legacy code gives that code back.
pub proof fn lemma_code_name_roundtrip(c: Code)
    ensures
        code_for_name(code_name(c)) == Some(c),
{
    match c {
        Code::IndexSizeErr => {
            reveal_strlit("IndexSizeError");
        },
        Code::HierarchyRequestErr => {
            reveal_strlit("HierarchyRequestError");
            reveal_strlit("IndexSizeError");
            assert("HierarchyRequestError"@.len() != "IndexSizeError"@.len());
        },
        Code::WrongDocumentErr => {
            reveal_strlit("WrongDocumentError");
            reveal_strlit("IndexSizeError");
            assert("WrongDocumentError"@.len() != "IndexSizeError"@.len());
            reveal_strlit("HierarchyRequestError");
            assert("WrongDocumentError"@.len() != "HierarchyRequestError"@.len());
        },
        Code::InvalidCharacterErr => {
            reveal_strlit("InvalidCharacterError");
            reveal_strlit("IndexSizeError");
            assert("InvalidCharacterError"@.len() != "IndexSizeError"@.len());
            reveal_strlit("HierarchyRequestError");
            assert("InvalidCharacterError"@[0] != "HierarchyRequestError"@[0]);
            reveal_strlit("WrongDocumentError");
            assert("InvalidCharacterError"@.len() != "WrongDocumentError"@.len());
        },
        Code::NoModificationAllowedErr => {
            reveal_strlit("NoModificationAllowedError");
            reveal_strlit("IndexSizeError");
            assert("NoModificationAllowedError"@.len() != "IndexSizeError"@.len());
            reveal_strlit("HierarchyRequestError");
            assert("NoModificationAllowedError"@.len() != "HierarchyRequestError"@.len());
            reveal_strlit("WrongDocumentError");
            assert("NoModificationAllowedError"@.len() != "WrongDocumentError"@.len());
            reveal_strlit("InvalidCharacterError");
            assert("NoModificationAllowedError"@.len() != "InvalidCharacterError"@.len());
        },
        Code::NotFoundErr => {
            reveal_strlit("NotFoundError");
            reveal_strlit("IndexSizeError");
            assert("NotFoundError"@.len() != "IndexSizeError"@.len());
            reveal_strlit("HierarchyRequestError");
            assert("NotFoundError"@.len() != "HierarchyRequestError"@.len());
            reveal_strlit("WrongDocumentError");
            assert("NotFoundError"@.len() != "WrongDocumentError"@.len());
            reveal_strlit("InvalidCharacterError");
            assert("NotFoundError"@.len() != "InvalidCharacterError"@.len());
            reveal_strlit("NoModificationAllowedError");
            assert("NotFoundError"@.len() != "NoModificationAllowedError"@.len());
        },
        Code::NotSupportedErr => {
            reveal_strlit("NotSupportedError");
            reveal_strlit("IndexSizeError");
            assert("NotSupportedError"@.len() != "IndexSizeError"@.len());
            reveal_strlit("HierarchyRequestError");
            assert("NotSupportedError"@.len() != "HierarchyRequestError"@.len());
            reveal_strlit("WrongDocumentError");
            assert("NotSupportedError"@.len() != "WrongDocumentError"@.len());
            reveal_strlit("InvalidCharacterError");
            assert("NotSupportedError"@.len() != "InvalidCharacterError"@.len());
            reveal_strlit("NoModificationAllowedError");
            assert("NotSupportedError"@.len() != "NoModificationAllowedError"@.len());
            reveal_strlit("NotFoundError");
            assert("NotSupportedError"@.len() != "NotFoundError"@.len());
        },
        Code::InuseAttributeErr => {
            reveal_strlit("InUseAttributeError");
            reveal_strlit("IndexSizeError");
            assert("InUseAttributeError"@.len() != "IndexSizeError"@.len());
            reveal_strlit("HierarchyRequestError");
            assert("InUseAttributeError"@.len() != "HierarchyRequestError"@.len());
            reveal_strlit("WrongDocumentError");
            assert("InUseAttributeError"@.len() != "WrongDocumentError"@.len());
            reveal_strlit("InvalidCharacterError");
            assert("InUseAttributeError"@.len() != "InvalidCharacterError"@.len());
            reveal_strlit("NoModificationAllowedError");
            assert("InUseAttributeError"@.len() != "NoModificationAllowedError"@.len());
            reveal_strlit("NotFoundError");
            assert("InUseAttributeError"@.len() != "NotFoundError"@.len());
            reveal_strlit("NotSupportedError");
            assert("InUseAttributeError"@.len() != "NotSupportedError"@.len());
        },
        Code::InvalidStateErr => {
            reveal_strlit("InvalidStateError");
            reveal_strlit("IndexSizeError");
            assert("InvalidStateError"@.len() != "IndexSizeError"@.len());
            reveal_strlit("HierarchyRequestError");
            assert("InvalidStateError"@.len() != "HierarchyRequestError"@.len());
            reveal_strlit("WrongDocumentError");
            assert("InvalidStateError"@.len() != "WrongDocumentError"@.len());
            reveal_strlit("InvalidCharacterError");
            assert("InvalidStateError"@.len() != "InvalidCharacterError"@.len());
            reveal_strlit("NoModificationAllowedError");
            assert("InvalidStateError"@.len() != "NoModificationAllowedError"@.len());
            reveal_strlit("NotFoundError");
            assert("InvalidStateError"@.len() != "NotFoundError"@.len());
            reveal_strlit("NotSupportedError");
            assert("InvalidStateError"@[0] != "NotSupportedError"@[0]);
            reveal_strlit("InUseAttributeError");
            assert("InvalidStateError"@.len() != "InUseAttributeError"@.len());
        },
        Code::SyntaxErr => {
            reveal_strlit("SyntaxError");
            reveal_strlit("IndexSizeError");
            assert("SyntaxError"@.len() != "IndexSizeError"@.len());
            reveal_strlit("HierarchyRequestError");
            assert("SyntaxError"@.len() != "HierarchyRequestError"@.len());
            reveal_strlit("WrongDocumentError");
            assert("SyntaxError"@.len() != "WrongDocumentError"@.len());
            reveal_strlit("InvalidCharacterError");
            assert("SyntaxError"@.len() != "InvalidCharacterError"@.len());
            reveal_strlit("NoModificationAllowedError");
            assert("SyntaxError"@.len() != "NoModificationAllowedError"@.len());
            reveal_strlit("NotFoundError");
            assert("SyntaxError"@.len() != "NotFoundError"@.len());
            reveal_strlit("NotSupportedError");
            assert("SyntaxError"@.len() != "NotSupportedError"@.len());
            reveal_strlit("InUseAttributeError");
            assert("SyntaxError"@.len() != "InUseAttributeError"@.len());
            reveal_strlit("InvalidStateError");
            assert("SyntaxError"@.len() != "InvalidStateError"@.len());
        },
        Code::InvalidModificationErr => {
            reveal_strlit("InvalidModificationError");
            reveal_strlit("IndexSizeError");
            assert("InvalidModificationError"@.len() != "IndexSizeError"@.len());
            reveal_strlit("HierarchyRequestError");
            assert("InvalidModificationError"@.len() != "HierarchyRequestError"@.len());
            reveal_strlit("WrongDocumentError");
            assert("InvalidModificationError"@.len() != "WrongDocumentError"@.len());
            reveal_strlit("InvalidCharacterError");
            assert("InvalidModificationError"@.len() != "InvalidCharacterError"@.len());
            reveal_strlit("NoModificationAllowedError");
            assert("InvalidModificationError"@.len() != "NoModificationAllowedError"@.len());
            reveal_strlit("NotFoundError");
            assert("InvalidModificationError"@.len() != "NotFoundError"@.len());
            reveal_strlit("NotSupportedError");
            assert("InvalidModificationError"@.len() != "NotSupportedError"@.len());
            reveal_strlit("InUseAttributeError");
            assert("InvalidModificationError"@.len() != "InUseAttributeError"@.len());
            reveal_strlit("InvalidStateError");
            assert("InvalidModificationError"@.len() != "InvalidStateError"@.len());
            reveal_strlit("SyntaxError");
            assert("InvalidModificationError"@.len() != "SyntaxError"@.len());
        },
        Code::NamespaceErr => {
            reveal_strlit("NamespaceError");
            reveal_strlit("IndexSizeError");
            assert("NamespaceError"@[0] != "IndexSizeError"@[0]);
            reveal_strlit("HierarchyRequestError");
            assert("NamespaceError"@.len() != "HierarchyRequestError"@.len());
            reveal_strlit("WrongDocumentError");
            assert("NamespaceError"@.len() != "WrongDocumentError"@.len());
            reveal_strlit("InvalidCharacterError");
            assert("NamespaceError"@.len() != "InvalidCharacterError"@.len());
            reveal_strlit("NoModificationAllowedError");
            assert("NamespaceError"@.len() != "NoModificationAllowedError"@.len());
            reveal_strlit("NotFoundError");
            assert("NamespaceError"@.len() != "NotFoundError"@.len());
            reveal_strlit("NotSupportedError");
            assert("NamespaceError"@.len() != "NotSupportedError"@.len());
            reveal_strlit("InUseAttributeError");
            assert("NamespaceError"@.len() != "InUseAttributeError"@.len());
            reveal_strlit("InvalidStateError");
            assert("NamespaceError"@.len() != "InvalidStateError"@.len());
            reveal_strlit("SyntaxError");
            assert("NamespaceError"@.len() != "SyntaxError"@.len());
            reveal_strlit("InvalidModificationError");
            assert("NamespaceError"@.len() != "InvalidModificationError"@.len());
        },
        Code::InvalidAccessErr => {
            reveal_strlit("InvalidAccessError");
            reveal_strlit("IndexSizeError");
            assert("InvalidAccessError"@.len() != "IndexSizeError"@.len());
            reveal_strlit("HierarchyRequestError");
            assert("InvalidAccessError"@.len() != "HierarchyRequestError"@.len());
            reveal_strlit("WrongDocumentError");
            assert("InvalidAccessError"@[0] != "WrongDocumentError"@[0]);
            reveal_strlit("InvalidCharacterError");
            assert("InvalidAccessError"@.len() != "InvalidCharacterError"@.len());
            reveal_strlit("NoModificationAllowedError");
            assert("InvalidAccessError"@.len() != "NoModificationAllowedError"@.len());
            reveal_strlit("NotFoundError");
            assert("InvalidAccessError"@.len() != "NotFoundError"@.len());
            reveal_strlit("NotSupportedError");
            assert("InvalidAccessError"@.len() != "NotSupportedError"@.len());
            reveal_strlit("InUseAttributeError");
            assert("InvalidAccessError"@.len() != "InUseAttributeError"@.len());
            reveal_strlit("InvalidStateError");
            assert("InvalidAccessError"@.len() != "InvalidStateError"@.len());
            reveal_strlit("SyntaxError");
            assert("InvalidAccessError"@.len() != "SyntaxError"@.len());
            reveal_strlit("InvalidModificationError");
            assert("InvalidAccessError"@.len() != "InvalidModificationError"@.len());
            reveal_strlit("NamespaceError");
            assert("InvalidAccessError"@.len() != "NamespaceError"@.len());
        },
        Code::TypeMismatchErr => {
            reveal_strlit("TypeMismatchError");
            reveal_strlit("IndexSizeError");
            assert("TypeMismatchError"@.len() != "IndexSizeError"@.len());
            reveal_strlit("HierarchyRequestError");
            assert("TypeMismatchError"@.len() != "HierarchyRequestError"@.len());
            reveal_strlit("WrongDocumentError");
            assert("TypeMismatchError"@.len() != "WrongDocumentError"@.len());
            reveal_strlit("InvalidCharacterError");
            assert("TypeMismatchError"@.len() != "InvalidCharacterError"@.len());
            reveal_strlit("NoModificationAllowedError");
            assert("TypeMismatchError"@.len() != "NoModificationAllowedError"@.len());
            reveal_strlit("NotFoundError");
            assert("TypeMismatchError"@.len() != "NotFoundError"@.len());
            reveal_strlit("NotSupportedError");
            assert("TypeMismatchError"@[0] != "NotSupportedError"@[0]);
            reveal_strlit("InUseAttributeError");
            assert("TypeMismatchError"@.len() != "InUseAttributeError"@.len());
            reveal_strlit("InvalidStateError");
            assert("TypeMismatchError"@[0] != "InvalidStateError"@[0]);
            reveal_strlit("SyntaxError");
            assert("TypeMismatchError"@.len() != "SyntaxError"@.len());
            reveal_strlit("InvalidModificationError");
            assert("TypeMismatchError"@.len() != "InvalidModificationError"@.len());
            reveal_strlit("NamespaceError");
            assert("TypeMismatchError"@.len() != "NamespaceError"@.len());
            reveal_strlit("InvalidAccessError");
            assert("TypeMismatchError"@.len() != "InvalidAccessError"@.len());
        },
        Code::SecurityErr => {
            reveal_strlit("SecurityError");
            reveal_strlit("IndexSizeError");
            assert("SecurityError"@.len() != "IndexSizeError"@.len());
            reveal_strlit("HierarchyRequestError");
            assert("SecurityError"@.len() != "HierarchyRequestError"@.len());
            reveal_strlit("WrongDocumentError");
            assert("SecurityError"@.len() != "WrongDocumentError"@.len());
            reveal_strlit("InvalidCharacterError");
            assert("SecurityError"@.len() != "InvalidCharacterError"@.len());
            reveal_strlit("NoModificationAllowedError");
            assert("SecurityError"@.len() != "NoModificationAllowedError"@.len());
            reveal_strlit("NotFoundError");
            assert("SecurityError"@[0] != "NotFoundError"@[0]);
            reveal_strlit("NotSupportedError");
            assert("SecurityError"@.len() != "NotSupportedError"@.len());
            reveal_strlit("InUseAttributeError");
            assert("SecurityError"@.len() != "InUseAttributeError"@.len());
            reveal_strlit("InvalidStateError");
            assert("SecurityError"@.len() != "InvalidStateError"@.len());
            reveal_strlit("SyntaxError");
            assert("SecurityError"@.len() != "SyntaxError"@.len());
            reveal_strlit("InvalidModificationError");
            assert("SecurityError"@.len() != "InvalidModificationError"@.len());
            reveal_strlit("NamespaceError");
            assert("SecurityError"@.len() != "NamespaceError"@.len());
            reveal_strlit("InvalidAccessError");
            assert("SecurityError"@.len() != "InvalidAccessError"@.len());
            reveal_strlit("TypeMismatchError");
            assert("SecurityError"@.len() != "TypeMismatchError"@.len());
        },
        Code::NetworkErr => {
            reveal_strlit("NetworkError");
            reveal_strlit("IndexSizeError");
            assert("NetworkError"@.len() != "IndexSizeError"@.len());
            reveal_strlit("HierarchyRequestError");
            assert("NetworkError"@.len() != "HierarchyRequestError"@.len());
            reveal_strlit("WrongDocumentError");
            assert("NetworkError"@.len() != "WrongDocumentError"@.len());
            reveal_strlit("InvalidCharacterError");
            assert("NetworkError"@.len() != "InvalidCharacterError"@.len());
            reveal_strlit("NoModificationAllowedError");
            assert("NetworkError"@.len() != "NoModificationAllowedError"@.len());
            reveal_strlit("NotFoundError");
            assert("NetworkError"@.len() != "NotFoundError"@.len());
            reveal_strlit("NotSupportedError");
            assert("NetworkError"@.len() != "NotSupportedError"@.len());
            reveal_strlit("InUseAttributeError");
            assert("NetworkError"@.len() != "InUseAttributeError"@.len());
            reveal_strlit("InvalidStateError");
            assert("NetworkError"@.len() != "InvalidStateError"@.len());
            reveal_strlit("SyntaxError");
            assert("NetworkError"@.len() != "SyntaxError"@.len());
            reveal_strlit("InvalidModificationError");
            assert("NetworkError"@.len() != "InvalidModificationError"@.len());
            reveal_strlit("NamespaceError");
            assert("NetworkError"@.len() != "NamespaceError"@.len());
            reveal_strlit("InvalidAccessError");
            assert("NetworkError"@.len() != "InvalidAccessError"@.len());
            reveal_strlit("TypeMismatchError");
            assert("NetworkError"@.len() != "TypeMismatchError"@.len());
            reveal_strlit("SecurityError");
            assert("NetworkError"@.len() != "SecurityError"@.len());
        },
        Code::AbortErr => {
            reveal_strlit("AbortError");
            reveal_strlit("IndexSizeError");
            assert("AbortError"@.len() != "IndexSizeError"@.len());
            reveal_strlit("HierarchyRequestError");
            assert("AbortError"@.len() != "HierarchyRequestError"@.len());
            reveal_strlit("WrongDocumentError");
            assert("AbortError"@.len() != "WrongDocumentError"@.len());
            reveal_strlit("InvalidCharacterError");
            assert("AbortError"@.len() != "InvalidCharacterError"@.len());
            reveal_strlit("NoModificationAllowedError");
            assert("AbortError"@.len() != "NoModificationAllowedError"@.len());
            reveal_strlit("NotFoundError");
            assert("AbortError"@.len() != "NotFoundError"@.len());
            reveal_strlit("NotSupportedError");
            assert("AbortError"@.len() != "NotSupportedError"@.len());
            reveal_strlit("InUseAttributeError");
            assert("AbortError"@.len() != "InUseAttributeError"@.len());
            reveal_strlit("InvalidStateError");
            assert("AbortError"@.len() != "InvalidStateError"@.len());
            reveal_strlit("SyntaxError");
            assert("AbortError"@.len() != "SyntaxError"@.len());
            reveal_strlit("InvalidModificationError");
            assert("AbortError"@.len() != "InvalidModificationError"@.len());
            reveal_strlit("NamespaceError");
            assert("AbortError"@.len() != "NamespaceError"@.len());
            reveal_strlit("InvalidAccessError");
            assert("AbortError"@.len() != "InvalidAccessError"@.len());
            reveal_strlit("TypeMismatchError");
            assert("AbortError"@.len() != "TypeMismatchError"@.len());
            reveal_strlit("SecurityError");
            assert("AbortError"@.len() != "SecurityError"@.len());
            reveal_strlit("NetworkError");
            assert("AbortError"@.len() != "NetworkError"@.len());
        },
        Code::UrlMismatchErr => {
            reveal_strlit("URLMismatchError");
            reveal_strlit("IndexSizeError");
            assert("URLMismatchError"@.len() != "IndexSizeError"@.len());
            reveal_strlit("HierarchyRequestError");
            assert("URLMismatchError"@.len() != "HierarchyRequestError"@.len());
            reveal_strlit("WrongDocumentError");
            assert("URLMismatchError"@.len() != "WrongDocumentError"@.len());
            reveal_strlit("InvalidCharacterError");
            assert("URLMismatchError"@.len() != "InvalidCharacterError"@.len());
            reveal_strlit("NoModificationAllowedError");
            assert("URLMismatchError"@.len() != "NoModificationAllowedError"@.len());
            reveal_strlit("NotFoundError");
            assert("URLMismatchError"@.len() != "NotFoundError"@.len());
            reveal_strlit("NotSupportedError");
            assert("URLMismatchError"@.len() != "NotSupportedError"@.len());
            reveal_strlit("InUseAttributeError");
            assert("URLMismatchError"@.len() != "InUseAttributeError"@.len());
            reveal_strlit("InvalidStateError");
            assert("URLMismatchError"@.len() != "InvalidStateError"@.len());
            reveal_strlit("SyntaxError");
            assert("URLMismatchError"@.len() != "SyntaxError"@.len());
            reveal_strlit("InvalidModificationError");
            assert("URLMismatchError"@.len() != "InvalidModificationError"@.len());
            reveal_strlit("NamespaceError");
            assert("URLMismatchError"@.len() != "NamespaceError"@.len());
            reveal_strlit("InvalidAccessError");
            assert("URLMismatchError"@.len() != "InvalidAccessError"@.len());
            reveal_strlit("TypeMismatchError");
            assert("URLMismatchError"@.len() != "TypeMismatchError"@.len());
            reveal_strlit("SecurityError");
            assert("URLMismatchError"@.len() != "SecurityError"@.len());
            reveal_strlit("NetworkError");
            assert("URLMismatchError"@.len() != "NetworkError"@.len());
            reveal_strlit("AbortError");
            assert("URLMismatchError"@.len() != "AbortError"@.len());
        },
        Code::QuotaExceededErr => {
            reveal_strlit("QuotaExceededError");
            reveal_strlit("IndexSizeError");
            assert("QuotaExceededError"@.len() != "IndexSizeError"@.len());
            reveal_strlit("HierarchyRequestError");
            assert("QuotaExceededError"@.len() != "HierarchyRequestError"@.len());
            reveal_strlit("WrongDocumentError");
            assert("QuotaExceededError"@[0] != "WrongDocumentError"@[0]);
            reveal_strlit("InvalidCharacterError");
            assert("QuotaExceededError"@.len() != "InvalidCharacterError"@.len());
            reveal_strlit("NoModificationAllowedError");
            assert("QuotaExceededError"@.len() != "NoModificationAllowedError"@.len());
            reveal_strlit("NotFoundError");
            assert("QuotaExceededError"@.len() != "NotFoundError"@.len());
            reveal_strlit("NotSupportedError");
            assert("QuotaExceededError"@.len() != "NotSupportedError"@.len());
            reveal_strlit("InUseAttributeError");
            assert("QuotaExceededError"@.len() != "InUseAttributeError"@.len());
            reveal_strlit("InvalidStateError");
            assert("QuotaExceededError"@.len() != "InvalidStateError"@.len());
            reveal_strlit("SyntaxError");
            assert("QuotaExceededError"@.len() != "SyntaxError"@.len());
            reveal_strlit("InvalidModificationError");
            assert("QuotaExceededError"@.len() != "InvalidModificationError"@.len());
            reveal_strlit("NamespaceError");
            assert("QuotaExceededError"@.len() != "NamespaceError"@.len());
            reveal_strlit("InvalidAccessError");
            assert("QuotaExceededError"@[0] != "InvalidAccessError"@[0]);
            reveal_strlit("TypeMismatchError");
            assert("QuotaExceededError"@.len() != "TypeMismatchError"@.len());
            reveal_strlit("SecurityError");
            assert("QuotaExceededError"@.len() != "SecurityError"@.len());
            reveal_strlit("NetworkError");
            assert("QuotaExceededError"@.len() != "NetworkError"@.len());
            reveal_strlit("AbortError");
            assert("QuotaExceededError"@.len() != "AbortError"@.len());
            reveal_strlit("URLMismatchError");
            assert("QuotaExceededError"@.len() != "URLMismatchError"@.len());
        },
        Code::TimeoutErr => {
            reveal_strlit("TimeoutError");
            reveal_strlit("IndexSizeError");
            assert("TimeoutError"@.len() != "IndexSizeError"@.len());
            reveal_strlit("HierarchyRequestError");
            assert("TimeoutError"@.len() != "HierarchyRequestError"@.len());
            reveal_strlit("WrongDocumentError");
            assert("TimeoutError"@.len() != "WrongDocumentError"@.len());
            reveal_strlit("InvalidCharacterError");
            assert("TimeoutError"@.len() != "InvalidCharacterError"@.len());
            reveal_strlit("NoModificationAllowedError");
            assert("TimeoutError"@.len() != "NoModificationAllowedError"@.len());
            reveal_strlit("NotFoundError");
            assert("TimeoutError"@.len() != "NotFoundError"@.len());
            reveal_strlit("NotSupportedError");
            assert("TimeoutError"@.len() != "NotSupportedError"@.len());
            reveal_strlit("InUseAttributeError");
            assert("TimeoutError"@.len() != "InUseAttributeError"@.len());
            reveal_strlit("InvalidStateError");
            assert("TimeoutError"@.len() != "InvalidStateError"@.len());
            reveal_strlit("SyntaxError");
            assert("TimeoutError"@.len() != "SyntaxError"@.len());
            reveal_strlit("InvalidModificationError");
            assert("TimeoutError"@.len() != "InvalidModificationError"@.len());
            reveal_strlit("NamespaceError");
            assert("TimeoutError"@.len() != "NamespaceError"@.len());
            reveal_strlit("InvalidAccessError");
            assert("TimeoutError"@.len() != "InvalidAccessError"@.len());
            reveal_strlit("TypeMismatchError");
            assert("TimeoutError"@.len() != "TypeMismatchError"@.len());
            reveal_strlit("SecurityError");
            assert("TimeoutError"@.len() != "SecurityError"@.len());
            reveal_strlit("NetworkError");
            assert("TimeoutError"@[0] != "NetworkError"@[0]);
            reveal_strlit("AbortError");
            assert("TimeoutError"@.len() != "AbortError"@.len());
            reveal_strlit("URLMismatchError");
            assert("TimeoutError"@.len() != "URLMismatchError"@.len());
            reveal_strlit("QuotaExceededError");
            assert("TimeoutError"@.len() != "QuotaExceededError"@.len());
        },
        Code::InvalidNodeTypeErr => {
            reveal_strlit("InvalidNodeTypeError");
            reveal_strlit("IndexSizeError");
            assert("InvalidNodeTypeError"@.len() != "IndexSizeError"@.len());
            reveal_strlit("HierarchyRequestError");
            assert("InvalidNodeTypeError"@.len() != "HierarchyRequestError"@.len());
            reveal_strlit("WrongDocumentError");
            assert("InvalidNodeTypeError"@.len() != "WrongDocumentError"@.len());
            reveal_strlit("InvalidCharacterError");
            assert("InvalidNodeTypeError"@.len() != "InvalidCharacterError"@.len());
            reveal_strlit("NoModificationAllowedError");
            assert("InvalidNodeTypeError"@.len() != "NoModificationAllowedError"@.len());
            reveal_strlit("NotFoundError");
            assert("InvalidNodeTypeError"@.len() != "NotFoundError"@.len());
            reveal_strlit("NotSupportedError");
            assert("InvalidNodeTypeError"@.len() != "NotSupportedError"@.len());
            reveal_strlit("InUseAttributeError");
            assert("InvalidNodeTypeError"@.len() != "InUseAttributeError"@.len());
            reveal_strlit("InvalidStateError");
            assert("InvalidNodeTypeError"@.len() != "InvalidStateError"@.len());
            reveal_strlit("SyntaxError");
            assert("InvalidNodeTypeError"@.len() != "SyntaxError"@.len());
            reveal_strlit("InvalidModificationError");
            assert("InvalidNodeTypeError"@.len() != "InvalidModificationError"@.len());
            reveal_strlit("NamespaceError");
            assert("InvalidNodeTypeError"@.len() != "NamespaceError"@.len());
            reveal_strlit("InvalidAccessError");
            assert("InvalidNodeTypeError"@.len() != "InvalidAccessError"@.len());
            reveal_strlit("TypeMismatchError");
            assert("InvalidNodeTypeError"@.len() != "TypeMismatchError"@.len());
            reveal_strlit("SecurityError");
            assert("InvalidNodeTypeError"@.len() != "SecurityError"@.len());
            reveal_strlit("NetworkError");
            assert("InvalidNodeTypeError"@.len() != "NetworkError"@.len());
            reveal_strlit("AbortError");
            assert("InvalidNodeTypeError"@.len() != "AbortError"@.len());
            reveal_strlit("URLMismatchError");
            assert("InvalidNodeTypeError"@.len() != "URLMismatchError"@.len());
            reveal_strlit("QuotaExceededError");
            assert("InvalidNodeTypeError"@.len() != "QuotaExceededError"@.len());
            reveal_strlit("TimeoutError");
            assert("InvalidNodeTypeError"@.len() != "TimeoutError"@.len());
        },
        Code::DataCloneErr => {
            reveal_strlit("DataCloneError");
            reveal_strlit("IndexSizeError");
            assert("DataCloneError"@[0] != "IndexSizeError"@[0]);
            reveal_strlit("HierarchyRequestError");
            assert("DataCloneError"@.len() != "HierarchyRequestError"@.len());
            reveal_strlit("WrongDocumentError");
            assert("DataCloneError"@.len() != "WrongDocumentError"@.len());
            reveal_strlit("InvalidCharacterError");
            assert("DataCloneError"@.len() != "InvalidCharacterError"@.len());
            reveal_strlit("NoModificationAllowedError");
            assert("DataCloneError"@.len() != "NoModificationAllowedError"@.len());
            reveal_strlit("NotFoundError");
            assert("DataCloneError"@.len() != "NotFoundError"@.len());
            reveal_strlit("NotSupportedError");
            assert("DataCloneError"@.len() != "NotSupportedError"@.len());
            reveal_strlit("InUseAttributeError");
            assert("DataCloneError"@.len() != "InUseAttributeError"@.len());
            reveal_strlit("InvalidStateError");
            assert("DataCloneError"@.len() != "InvalidStateError"@.len());
            reveal_strlit("SyntaxError");
            assert("DataCloneError"@.len() != "SyntaxError"@.len());
            reveal_strlit("InvalidModificationError");
            assert("DataCloneError"@.len() != "InvalidModificationError"@.len());
            reveal_strlit("NamespaceError");
            assert("DataCloneError"@[0] != "NamespaceError"@[0]);
            reveal_strlit("InvalidAccessError");
            assert("DataCloneError"@.len() != "InvalidAccessError"@.len());
            reveal_strlit("TypeMismatchError");
            assert("DataCloneError"@.len() != "TypeMismatchError"@.len());
            reveal_strlit("SecurityError");
            assert("DataCloneError"@.len() != "SecurityError"@.len());
            reveal_strlit("NetworkError");
            assert("DataCloneError"@.len() != "NetworkError"@.len());
            reveal_strlit("AbortError");
            assert("DataCloneError"@.len() != "AbortError"@.len());
            reveal_strlit("URLMismatchError");
            assert("DataCloneError"@.len() != "URLMismatchError"@.len());
            reveal_strlit("QuotaExceededError");
            assert("DataCloneError"@.len() != "QuotaExceededError"@.len());
            reveal_strlit("TimeoutError");
            assert("DataCloneError"@.len() != "TimeoutError"@.len());
            reveal_strlit("InvalidNodeTypeError");
            assert("DataCloneError"@.len() != "InvalidNodeTypeError"@.len());
        },
    }
}

/// An exception's `code` is 0 exactly when its name is not one of the legacy names,
/// and otherwise it is the value of the legacy code of that name.
pub proof fn lemma_code_zero_iff_unknown(name: Seq<char>)
    ensures
        (spec_code_of_name(name) == 0) <==> code_for_name(name) is None,
        code_for_name(name) matches Some(c) ==> spec_code_of_name(name) == code_value(c),
{
}

/// Only the legacy names have a code: a name that the table gives a code for is that
/// code's own name, and a name that is no legacy code's name has none.
pub proof fn lemma_code_for_name_sound(name: Seq<char>)
    ensures
        code_for_name(name) matches Some(c) ==> name == code_name(c),
        code_for_name(name) is None ==> forall|c: Code| name != #[trigger] code_name(c),
        (forall|c: Code| name != #[trigger] code_name(c)) ==> spec_code_of_name(name) == 0,
{
    assert forall|c: Code| code_for_name(name) is None implies name != #[trigger] code_name(c) by {
        lemma_code_name_roundtrip(c);
    }
    match code_for_name(name) {
        Some(c) => lemma_code_name_roundtrip(c),
        None => {},
    }
}

/// The name of the `DOMException` constant that holds a legacy code.
pub open spec fn code_constant_name(c: Code) -> Seq<char> {
    match c {
        Code::IndexSizeErr => "INDEX_SIZE_ERR"@,
        Code::HierarchyRequestErr => "HIERARCHY_REQUEST_ERR"@,
        Code::WrongDocumentErr => "WRONG_DOCUMENT_ERR"@,
        Code::InvalidCharacterErr => "INVALID_CHARACTER_ERR"@,
        Code::NoModificationAllowedErr => "NO_MODIFICATION_ALLOWED_ERR"@,
        Code::NotFoundErr => "NOT_FOUND_ERR"@,
        Code::NotSupportedErr => "NOT_SUPPORTED_ERR"@,
        Code::InuseAttributeErr => "INUSE_ATTRIBUTE_ERR"@,
        Code::InvalidStateErr => "INVALID_STATE_ERR"@,
        Code::SyntaxErr => "SYNTAX_ERR"@,
        Code::InvalidModificationErr => "INVALID_MODIFICATION_ERR"@,
        Code::NamespaceErr => "NAMESPACE_ERR"@,
        Code::InvalidAccessErr => "INVALID_ACCESS_ERR"@,
        Code::TypeMismatchErr => "TYPE_MISMATCH_ERR"@,
        Code::SecurityErr => "SECURITY_ERR"@,
        Code::NetworkErr => "NETWORK_ERR"@,
        Code::AbortErr => "ABORT_ERR"@,
        Code::UrlMismatchErr => "URL_MISMATCH_ERR"@,
        Code::QuotaExceededErr => "QUOTA_EXCEEDED_ERR"@,
        Code::TimeoutErr => "TIMEOUT_ERR"@,
        Code::InvalidNodeTypeErr => "INVALID_NODE_TYPE_ERR"@,
        Code::DataCloneErr => "DATA_CLONE_ERR"@,
    }
}

/// The legacy codes, in the order of their constants.
pub open spec fn all_codes() -> Seq<Code> {
    seq![
        Code::IndexSizeErr,
        Code::HierarchyRequestErr,
        Code::WrongDocumentErr,
        Code::InvalidCharacterErr,
        Code::NoModificationAllowedErr,
        Code::NotFoundErr,
        Code::NotSupportedErr,
        Code::InuseAttributeErr,
        Code::InvalidStateErr,
        Code::SyntaxErr,
        Code::InvalidModificationErr,
        Code::NamespaceErr,
        Code::InvalidAccessErr,
        Code::TypeMismatchErr,
        Code::SecurityErr,
        Code::NetworkErr,
        Code::AbortErr,
        Code::UrlMismatchErr,
        Code::QuotaExceededErr,
        Code::TimeoutErr,
        Code::InvalidNodeTypeErr,
        Code::DataCloneErr,
    ]
}

impl Code {
    /// The name of the `DOMException` constant that holds this code.
    pub fn constant_name(self) -> (r: &'static str)
        ensures
            r@ == code_constant_name(self),
    {
        match self {
            Code::IndexSizeErr => "INDEX_SIZE_ERR",
            Code::HierarchyRequestErr => "HIERARCHY_REQUEST_ERR",
            Code::WrongDocumentErr => "WRONG_DOCUMENT_ERR",
            Code::InvalidCharacterErr => "INVALID_CHARACTER_ERR",
            Code::NoModificationAllowedErr => "NO_MODIFICATION_ALLOWED_ERR",
            Code::NotFoundErr => "NOT_FOUND_ERR",
            Code::NotSupportedErr => "NOT_SUPPORTED_ERR",
            Code::InuseAttributeErr => "INUSE_ATTRIBUTE_ERR",
            Code::InvalidStateErr => "INVALID_STATE_ERR",
            Code::SyntaxErr => "SYNTAX_ERR",
            Code::InvalidModificationErr => "INVALID_MODIFICATION_ERR",
            Code::NamespaceErr => "NAMESPACE_ERR",
            Code::InvalidAccessErr => "INVALID_ACCESS_ERR",
            Code::TypeMismatchErr => "TYPE_MISMATCH_ERR",
            Code::SecurityErr => "SECURITY_ERR",
            Code::NetworkErr => "NETWORK_ERR",
            Code::AbortErr => "ABORT_ERR",
            Code::UrlMismatchErr => "URL_MISMATCH_ERR",
            Code::QuotaExceededErr => "QUOTA_EXCEEDED_ERR",
            Code::TimeoutErr => "TIMEOUT_ERR",
            Code::InvalidNodeTypeErr => "INVALID_NODE_TYPE_ERR",
            Code::DataCloneErr => "DATA_CLONE_ERR",
        }
    }
}

impl DOMException {
    /// The legacy codes in the order of their constants, which are enumerable properties
    /// of the `DOMException` constructor.
    pub fn legacy_codes() -> (r: Vec<Code>)
        ensures
            r@ == all_codes(),
    {
        let mut v: Vec<Code> = Vec::new();
        v.push(Code::IndexSizeErr);
        v.push(Code::HierarchyRequestErr);
        v.push(Code::WrongDocumentErr);
        v.push(Code::InvalidCharacterErr);
        v.push(Code::NoModificationAllowedErr);
        v.push(Code::NotFoundErr);
        v.push(Code::NotSupportedErr);
        v.push(Code::InuseAttributeErr);
        v.push(Code::InvalidStateErr);
        v.push(Code::SyntaxErr);
        v.push(Code::InvalidModificationErr);
        v.push(Code::NamespaceErr);
        v.push(Code::InvalidAccessErr);
        v.push(Code::TypeMismatchErr);
        v.push(Code::SecurityErr);
        v.push(Code::NetworkErr);
        v.push(Code::AbortErr);
        v.push(Code::UrlMismatchErr);
        v.push(Code::QuotaExceededErr);
        v.push(Code::TimeoutErr);
        v.push(Code::InvalidNodeTypeErr);
        v.push(Code::DataCloneErr);
        assert(v@ =~= all_codes());
        v
    }

    /// The names of the constants of the `DOMException` constructor, in order.
    pub fn constant_names() -> (r: Vec<&'static str>)
        ensures
            r@.len() == all_codes().len(),
            forall|i: int| 0 <= i < r@.len() ==> (#[trigger] r@[i])@ == code_constant_name(all_codes()[i]),
    {
        let codes = Self::legacy_codes();
        let mut out: Vec<&'static str> = Vec::new();
        let mut i: usize = 0;
        while i < codes.len()
            invariant
                codes@ == all_codes(),
                i <= codes@.len(),
                out@.len() == i,
                forall|j: int| 0 <= j < i ==> (#[trigger] out@[j])@ == code_constant_name(all_codes()[j]),
            decreases codes@.len() - i,
        {
            out.push(codes[i].constant_name());
            i = i + 1;
        }
        out
    }

    /// The object that `DOMException.prototype` inherits from: the realm's
    /// `Error.prototype`, which the engine passes in.
    pub fn inherit(error_prototype: ObjectRef) -> (r: ObjectRef)
        ensures
            r == error_prototype,
    {
        error_prototype
    }
}

/// Each constant of `DOMException` holds the value of its legacy code.
pub proof fn lemma_constants_hold_codes()
    ensures
        DOMException::INDEX_SIZE_ERR == code_value(Code::IndexSizeErr),
        DOMException::HIERARCHY_REQUEST_ERR == code_value(Code::HierarchyRequestErr),
        DOMException::WRONG_DOCUMENT_ERR == code_value(Code::WrongDocumentErr),
        DOMException::INVALID_CHARACTER_ERR == code_value(Code::InvalidCharacterErr),
        DOMException::NO_MODIFICATION_ALLOWED_ERR == code_value(Code::NoModificationAllowedErr),
        DOMException::NOT_FOUND_ERR == code_value(Code::NotFoundErr),
        DOMException::NOT_SUPPORTED_ERR == code_value(Code::NotSupportedErr),
        DOMException::INUSE_ATTRIBUTE_ERR == code_value(Code::InuseAttributeErr),
        DOMException::INVALID_STATE_ERR == code_value(Code::InvalidStateErr),
        DOMException::SYNTAX_ERR == code_value(Code::SyntaxErr),
        DOMException::INVALID_MODIFICATION_ERR == code_value(Code::InvalidModificationErr),
        DOMException::NAMESPACE_ERR == code_value(Code::NamespaceErr),
        DOMException::INVALID_ACCESS_ERR == code_value(Code::InvalidAccessErr),
        DOMException::TYPE_MISMATCH_ERR == code_value(Code::TypeMismatchErr),
        DOMException::SECURITY_ERR == code_value(Code::SecurityErr),
        DOMException::NETWORK_ERR == code_value(Code::NetworkErr),
        DOMException::ABORT_ERR == code_value(Code::AbortErr),
        DOMException::URL_MISMATCH_ERR == code_value(Code::UrlMismatchErr),
        DOMException::QUOTA_EXCEEDED_ERR == code_value(Code::QuotaExceededErr),
        DOMException::TIMEOUT_ERR == code_value(Code::TimeoutErr),
        DOMException::INVALID_NODE_TYPE_ERR == code_value(Code::InvalidNodeTypeErr),
        DOMException::DATA_CLONE_ERR == code_value(Code::DataCloneErr),
{
}

} // verus!
