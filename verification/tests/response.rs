use boa::response::{extract_body, BodyInit, Headers, JsResponse, JsResponseOptions, ResponseType};
use boa::value::{ErrorKind, JsError, Reason};

fn no_options() -> JsResponseOptions {
    JsResponseOptions { status: None, status_text: None, headers: None }
}

fn with_status(status: u16) -> JsResponseOptions {
    JsResponseOptions { status: Some(status), status_text: None, headers: None }
}

fn fetched(body: &[u8]) -> JsResponse {
    JsResponse::basic("http://unit.test/".to_string(), 200, Headers::new(), body.to_vec())
}

fn kind_of(e: &JsError) -> Option<ErrorKind> {
    match e {
        JsError::Native { kind, .. } => Some(*kind),
        JsError::Throw(_) => None,
    }
}

#[test]
fn response_error() {
    let response = JsResponse::error();
    assert_eq!(response.status(), 0);
    assert_eq!(response.status_text(), "");
    assert_eq!(response.headers().get("custom-header"), None);
    assert_eq!(response.response_type(), "error");
    assert_eq!(response.url(), "");
}

#[test]
fn response_text() {
    let response = fetched(b"Hello World");
    assert_eq!(response.text(), "Hello World");
}

#[test]
fn response_json() {
    let response = fetched(b"{ \"hello world\": 123 }");
    let json = response.json().ok().expect("valid JSON");
    assert_eq!(json["hello world"].as_i64(), Some(123));
}

#[test]
fn response_bytes() {
    let response = fetched(b"Hello World");
    let bytes = response.bytes();
    assert_eq!(String::from_utf8(bytes).unwrap(), "Hello World");
}

#[test]
fn response_getter() {
    let mut headers = Headers::new();
    headers.append("custom-header".to_string(), "custom-value".to_string());
    let response =
        JsResponse::basic("http://unit.test/".to_string(), 200, headers, b"Hello World".to_vec());
    assert_eq!(response.status(), 200);
    assert_eq!(response.status_text(), "OK");
    assert_eq!(response.headers().get("custom-header"), Some("custom-value".to_string()));
    assert_eq!(response.response_type(), "basic");
    assert_eq!(response.url(), "http://unit.test/");
}

#[test]
fn response_constructor_basic() {
    let response = JsResponse::constructor(
        Some(BodyInit::Text("Hello, World!".to_string())),
        no_options(),
    )
    .ok()
    .expect("constructed");
    assert_eq!(response.status(), 200);
    assert_eq!(response.status_text(), "OK");
    assert_eq!(response.response_type(), "basic");
}

#[test]
fn response_constructor_with_status() {
    let response =
        JsResponse::constructor(Some(BodyInit::Text("Not Found".to_string())), with_status(404))
            .ok()
            .expect("constructed");
    assert_eq!(response.status(), 404);
    assert_eq!(response.status_text(), "Not Found");
}

#[test]
fn response_constructor_with_status_text() {
    let response = JsResponse::constructor(
        Some(BodyInit::Text("OK".to_string())),
        JsResponseOptions {
            status: Some(200),
            status_text: Some("Custom Status".to_string()),
            headers: None,
        },
    )
    .ok()
    .expect("constructed");
    assert_eq!(response.status(), 200);
    assert_eq!(response.status_text(), "Custom Status");
}

#[test]
fn response_constructor_with_headers() {
    let mut headers = Headers::new();
    headers.append("Content-Type".to_string(), "application/json".to_string());
    let response = JsResponse::constructor(
        Some(BodyInit::Text("OK".to_string())),
        JsResponseOptions { status: None, status_text: None, headers: Some(headers) },
    )
    .ok()
    .expect("constructed");
    assert_eq!(response.headers().get("Content-Type"), Some("application/json".to_string()));
    // the body's own type is not added over an existing Content-Type
    assert_eq!(response.headers().entries.len(), 1);
}

#[test]
fn response_constructor_null_body() {
    let response = JsResponse::constructor(None, no_options()).ok().expect("constructed");
    assert_eq!(response.status(), 200);
    assert_eq!(response.body(), None);
}

#[test]
fn response_constructor_invalid_status() {
    let r = JsResponse::constructor(Some(BodyInit::Text("test".to_string())), with_status(100));
    let e = r.err().expect("RangeError");
    assert_eq!(kind_of(&e), Some(ErrorKind::Range));
    assert_eq!(e, JsError::Native { kind: ErrorKind::Range, reason: Reason::StatusOutOfRange });
}

#[test]
fn response_constructor_null_body_status() {
    let r = JsResponse::constructor(Some(BodyInit::Text("test".to_string())), with_status(204));
    let e = r.err().expect("TypeError");
    assert_eq!(kind_of(&e), Some(ErrorKind::Type));
    assert_eq!(e, JsError::Native { kind: ErrorKind::Type, reason: Reason::NullBodyStatus });
}

#[test]
fn response_constructor_body_text() {
    let response = JsResponse::constructor(
        Some(BodyInit::Text("Hello, World!".to_string())),
        no_options(),
    )
    .ok()
    .expect("constructed");
    assert_eq!(response.text(), "Hello, World!");
    assert_eq!(
        response.headers().get("content-type"),
        Some("text/plain;charset=UTF-8".to_string())
    );
}

#[test]
fn response_constructor_status_bounds_and_text_checks() {
    assert!(JsResponse::constructor(None, with_status(199)).is_err());
    assert!(JsResponse::constructor(None, with_status(600)).is_err());
    assert_eq!(JsResponse::constructor(None, with_status(599)).ok().map(|r| r.status()), Some(599));
    // a null body status without a body is fine
    assert_eq!(JsResponse::constructor(None, with_status(204)).ok().map(|r| r.status()), Some(204));
    let bad_text = JsResponseOptions {
        status: Some(200),
        status_text: Some("bad\ntext".to_string()),
        headers: None,
    };
    assert_eq!(
        JsResponse::constructor(None, bad_text).err(),
        Some(JsError::Native { kind: ErrorKind::Type, reason: Reason::InvalidStatusText })
    );
    // the status is checked before the status text
    let both_bad = JsResponseOptions {
        status: Some(42),
        status_text: Some("\u{7f}".to_string()),
        headers: None,
    };
    assert_eq!(
        JsResponse::constructor(None, both_bad).err(),
        Some(JsError::Native { kind: ErrorKind::Range, reason: Reason::StatusOutOfRange })
    );
}

#[test]
fn response_canonical_reasons() {
    assert_eq!(JsResponse::basic(String::new(), 404, Headers::new(), Vec::new()).status_text(), "Not Found");
    assert_eq!(JsResponse::basic(String::new(), 500, Headers::new(), Vec::new()).status_text(), "Internal Server Error");
    // a code without a canonical reason gets an empty status text
    assert_eq!(JsResponse::basic(String::new(), 999, Headers::new(), Vec::new()).status_text(), "");
    // an empty body is no body
    assert_eq!(JsResponse::basic(String::new(), 200, Headers::new(), Vec::new()).body(), None);
}

#[test]
fn response_text_replaces_invalid_utf8() {
    let response = fetched(&[b'a', 0xff, b'b']);
    assert_eq!(response.text(), "a\u{fffd}b");
    assert_eq!(fetched(&[]).text(), "");
}

#[test]
fn response_json_rejects_non_json() {
    let response = fetched(b"{ not json");
    let e = response.json().err().expect("SyntaxError");
    let expected = serde_json::from_str::<serde_json::Value>("{ not json").unwrap_err().to_string();
    assert_eq!(e.message, expected);
    assert!(!e.message.is_empty());
}

#[test]
fn response_json_value_is_the_body_value() {
    let response = fetched(b"[1, \"two\", null]");
    let json = response.json().ok().expect("valid JSON");
    let expected: serde_json::Value = serde_json::from_str("[1, \"two\", null]").unwrap();
    assert_eq!(json, expected);
    assert_eq!(json[1].as_str(), Some("two"));
}

#[test]
fn extract_body_kinds() {
    let (bytes, ty) = extract_body(BodyInit::Bytes(vec![1, 2, 3]));
    assert_eq!(bytes, vec![1, 2, 3]);
    assert_eq!(ty, None);
    let (bytes, ty) = extract_body(BodyInit::Text("é".to_string()));
    assert_eq!(bytes, vec![0xc3, 0xa9]);
    assert_eq!(ty, Some("text/plain;charset=UTF-8".to_string()));
    let (bytes, ty) = extract_body(BodyInit::Other("[object Object]".to_string()));
    assert_eq!(bytes, b"[object Object]".to_vec());
    assert_eq!(ty, None);
}

#[test]
fn response_type_names_roundtrip() {
    for t in [
        ResponseType::Basic,
        ResponseType::Cors,
        ResponseType::Error,
        ResponseType::Opaque,
        ResponseType::OpaqueRedirect,
    ] {
        assert_eq!(ResponseType::try_from_str(t.to_string()), Ok(t));
    }
    assert_eq!(
        ResponseType::try_from_str("Basic"),
        Err(JsError::Native { kind: ErrorKind::Type, reason: Reason::InvalidResponseType })
    );
}

#[test]
fn headers_are_case_insensitive() {
    let mut h = Headers::new();
    h.append("X-One".to_string(), "1".to_string());
    h.append("x-one".to_string(), "2".to_string());
    assert!(h.has("x-ONE"));
    assert!(!h.has("x-two"));
    assert_eq!(h.get("X-ONE"), Some("1".to_string()));
}
