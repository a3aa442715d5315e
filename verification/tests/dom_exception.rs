use boa::dom_exception::{Code, DOMException};
use boa::value::ObjectRef;

fn exception(message: &str, name: &str) -> DOMException {
    DOMException::constructor(Some(message.to_string()), Some(name.to_string()))
}

#[test]
fn test_dom_exception_constructor_defaults() {
    let e = DOMException::constructor(None, None);
    assert_eq!(e.message(), "");
    assert_eq!(e.name(), "Error");
    assert_eq!(e.code(), 0);
}

#[test]
fn test_dom_exception_constructor_with_message() {
    let e = DOMException::constructor(Some("Test message".to_string()), None);
    assert_eq!(e.message(), "Test message");
    assert_eq!(e.name(), "Error");
    assert_eq!(e.code(), 0);
}

#[test]
fn test_dom_exception_constructor_with_name() {
    let e = exception("Test message", "NetworkError");
    assert_eq!(e.message(), "Test message");
    assert_eq!(e.name(), "NetworkError");
    assert_eq!(e.code(), 19);
}

/// `instanceof` on a chain of prototypes: whether `proto` is on the chain from `object`.
fn instance_of(object: ObjectRef, proto: ObjectRef, parent: &dyn Fn(ObjectRef) -> Option<ObjectRef>) -> bool {
    let mut current = parent(object);
    while let Some(p) = current {
        if p == proto {
            return true;
        }
        current = parent(p);
    }
    false
}

#[test]
fn test_dom_exception_inherits_from_error() {
    let object_prototype = ObjectRef { id: 1, callable: false };
    let error_prototype = ObjectRef { id: 2, callable: false };
    let dom_exception_prototype = ObjectRef { id: 3, callable: false };
    let instance = ObjectRef { id: 4, callable: false };
    let inherited = DOMException::inherit(error_prototype);
    let parent = |o: ObjectRef| match o.id {
        4 => Some(dom_exception_prototype),
        3 => Some(inherited),
        2 => Some(object_prototype),
        _ => None,
    };
    // new DOMException() instanceof Error
    assert!(instance_of(instance, error_prototype, &parent));
    // new DOMException() instanceof DOMException
    assert!(instance_of(instance, dom_exception_prototype, &parent));
    let e = DOMException::constructor(None, None);
    assert_eq!(e.name(), "Error");
}

#[test]
fn test_dom_exception_all_legacy_codes() {
    assert_eq!(exception("test", "IndexSizeError").code(), 1);
    assert_eq!(exception("test", "HierarchyRequestError").code(), 3);
    assert_eq!(exception("test", "WrongDocumentError").code(), 4);
    assert_eq!(exception("test", "InvalidCharacterError").code(), 5);
    assert_eq!(exception("test", "NoModificationAllowedError").code(), 7);
    assert_eq!(exception("test", "NotFoundError").code(), 8);
    assert_eq!(exception("test", "NotSupportedError").code(), 9);
    assert_eq!(exception("test", "InUseAttributeError").code(), 10);
    assert_eq!(exception("test", "InvalidStateError").code(), 11);
    assert_eq!(exception("test", "SyntaxError").code(), 12);
    assert_eq!(exception("test", "InvalidModificationError").code(), 13);
    assert_eq!(exception("test", "NamespaceError").code(), 14);
    assert_eq!(exception("test", "InvalidAccessError").code(), 15);
    assert_eq!(exception("test", "TypeMismatchError").code(), 17);
    assert_eq!(exception("test", "SecurityError").code(), 18);
    assert_eq!(exception("test", "NetworkError").code(), 19);
    assert_eq!(exception("test", "AbortError").code(), 20);
    assert_eq!(exception("test", "URLMismatchError").code(), 21);
    assert_eq!(exception("test", "QuotaExceededError").code(), 22);
    assert_eq!(exception("test", "TimeoutError").code(), 23);
    assert_eq!(exception("test", "InvalidNodeTypeError").code(), 24);
    assert_eq!(exception("test", "DataCloneError").code(), 25);
}

#[test]
fn test_dom_exception_unknown_name_returns_zero() {
    let e = exception("test", "UnknownError");
    assert_eq!(e.code(), 0);
    assert_eq!(e.name(), "UnknownError");
}

#[test]
fn test_dom_exception_constants() {
    assert_eq!(DOMException::INDEX_SIZE_ERR, 1);
    assert_eq!(DOMException::HIERARCHY_REQUEST_ERR, 3);
    assert_eq!(DOMException::WRONG_DOCUMENT_ERR, 4);
    assert_eq!(DOMException::INVALID_CHARACTER_ERR, 5);
    assert_eq!(DOMException::NO_MODIFICATION_ALLOWED_ERR, 7);
    assert_eq!(DOMException::NOT_FOUND_ERR, 8);
    assert_eq!(DOMException::NOT_SUPPORTED_ERR, 9);
    assert_eq!(DOMException::INUSE_ATTRIBUTE_ERR, 10);
    assert_eq!(DOMException::INVALID_STATE_ERR, 11);
    assert_eq!(DOMException::SYNTAX_ERR, 12);
    assert_eq!(DOMException::INVALID_MODIFICATION_ERR, 13);
    assert_eq!(DOMException::NAMESPACE_ERR, 14);
    assert_eq!(DOMException::INVALID_ACCESS_ERR, 15);
    assert_eq!(DOMException::TYPE_MISMATCH_ERR, 17);
    assert_eq!(DOMException::SECURITY_ERR, 18);
    assert_eq!(DOMException::NETWORK_ERR, 19);
    assert_eq!(DOMException::ABORT_ERR, 20);
    assert_eq!(DOMException::URL_MISMATCH_ERR, 21);
    assert_eq!(DOMException::QUOTA_EXCEEDED_ERR, 22);
    assert_eq!(DOMException::TIMEOUT_ERR, 23);
    assert_eq!(DOMException::INVALID_NODE_TYPE_ERR, 24);
    assert_eq!(DOMException::DATA_CLONE_ERR, 25);
}

#[test]
fn test_dom_exception_constants_are_enumerable() {
    let names = DOMException::constant_names();
    assert!(names.contains(&"INDEX_SIZE_ERR"));
    assert!(names.contains(&"NETWORK_ERR"));
    assert!(names.contains(&"DATA_CLONE_ERR"));
}

#[test]
fn test_dom_exception_properties_are_readonly() {
    // The getters hand out copies: changing them leaves the exception as it was.
    let e = exception("msg", "NetworkError");
    let mut message = e.message();
    let mut name = e.name();
    message.push_str("modified");
    name.push_str("modified");
    assert_eq!(e.message(), "msg");
    assert_eq!(e.name(), "NetworkError");
    assert_eq!(e.code(), 19);
}

#[test]
fn test_dom_exception_code_method() {
    let exception = DOMException {
        message: "test".to_string(),
        name: "NetworkError".to_string(),
    };
    assert_eq!(exception.code(), 19);

    let exception2 = DOMException {
        message: "test".to_string(),
        name: "CustomError".to_string(),
    };
    assert_eq!(exception2.code(), 0);
}

#[test]
fn legacy_codes_match_constants_in_order() {
    let codes = DOMException::legacy_codes();
    let names = DOMException::constant_names();
    assert_eq!(codes.len(), 22);
    assert_eq!(names.len(), 22);
    for (c, n) in codes.iter().zip(names.iter()) {
        assert_eq!(c.constant_name(), *n);
    }
    assert_eq!(codes[0].code(), 1);
    assert_eq!(codes[21].code(), 25);
}

#[test]
fn code_from_name_roundtrip_and_case_sensitivity() {
    assert_eq!(Code::from_name("NetworkError"), Some(Code::NetworkErr));
    assert_eq!(Code::from_name("networkerror"), None);
    assert_eq!(Code::from_name(""), None);
    assert_eq!(Code::from_name("URLMismatchError").map(|c| c.code()), Some(21));
    // code values are distinct
    let codes = DOMException::legacy_codes();
    for i in 0..codes.len() {
        for j in 0..codes.len() {
            assert_eq!(codes[i].code() == codes[j].code(), i == j);
        }
    }
}
