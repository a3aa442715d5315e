//! The Fetch `Response` interface: the response types, the responses that a fetch and
//! `Response.error()` create, the `Response` constructor's "initialize a response" and
//! "extract a body" algorithms, and the reading of a response's body.

use vstd::prelude::*;
use crate::value::{make_range_error, make_type_error, range_error, type_error, JsError, JsResult, Reason};
use crate::dom_exception::str_eq;

verus! {

#[verifier::external_type_specification]
#[verifier::external_body]
pub struct ExStatusCode(http::StatusCode);

#[verifier::external_type_specification]
#[verifier::external_body]
pub struct ExInvalidStatusCode(http::status::InvalidStatusCode);

#[verifier::external_type_specification]
#[verifier::external_body]
pub struct ExJsonValue(serde_json::Value);

/// `http::StatusCode::from_u16`: its source accepts exactly the codes from 100 to 999.
#[verifier::external_body]
fn status_code_from_u16(code: u16) -> (r: Result<http::StatusCode, http::status::InvalidStatusCode>)
    ensures
        r is Ok <==> 100 <= code <= 999,
{
    http::StatusCode::from_u16(code)
}

/// The canonical reason phrase that `http` has for a status code, if it has one.
pub uninterp spec fn canonical_reason_of(code: u16) -> Option<Seq<char>>;

/// `http::StatusCode::canonical_reason` of the status code `code`: the phrase of `http`'s
/// table for that code (`canonical_reason_of`), or `None` for a code it has no phrase for.
/// What the table holds is left unsaid.
#[verifier::external_body]
fn status_canonical_reason(code: u16) -> (r: Option<&'static str>)
    requires
        100 <= code <= 999,
    ensures
        match r {
            Some(s) => canonical_reason_of(code) == Some(s@),
            None => canonical_reason_of(code) is None,
        },
{
    match http::StatusCode::from_u16(code) {
        Ok(s) => s.canonical_reason(),
        Err(_) => None,
    }
}

/// What `String::from_utf8_lossy` makes of a byte sequence.
pub uninterp spec fn utf8_lossy(bytes: Seq<u8>) -> Seq<char>;

/// `String::from_utf8_lossy`: the bytes decoded as UTF-8, each invalid sequence replaced
/// by U+FFFD (`utf8_lossy`); valid UTF-8 is decoded as it is, as std documents. How the
/// invalid sequences are cut is left unsaid.
#[verifier::external_body]
fn from_utf8_lossy(bytes: &[u8]) -> (r: String)
    ensures
        r@ == utf8_lossy(bytes@),
        vstd::utf8::valid_utf8(bytes@) ==> r@ == vstd::utf8::decode_utf8(bytes@),
{
    String::from_utf8_lossy(bytes).into_owned()
}

/// Whether `serde_json` accepts a text as one JSON value.
pub uninterp spec fn json_accepts(text: Seq<char>) -> bool;

/// The value that `serde_json` parses from a text it accepts.
pub uninterp spec fn json_value_of(text: Seq<char>) -> serde_json::Value;

/// The message of the error that `serde_json` reports for a text it refuses.
pub uninterp spec fn json_error_text(text: Seq<char>) -> Seq<char>;

/// `serde_json::from_str::<serde_json::Value>`, with its error turned into its message
/// (`to_string`): succeeds exactly on the texts that `serde_json` accepts
/// (`json_accepts`), with the value it parses from the text (`json_value_of`), and fails
/// with the message for the text (`json_error_text`). Which texts are accepted, which
/// values and which messages they give are left unsaid.
#[verifier::external_body]
fn json_from_str(text: &str) -> (r: Result<serde_json::Value, String>)
    ensures
        r is Ok <==> json_accepts(text@),
        r is Ok ==> r->Ok_0 == json_value_of(text@),
        r is Err ==> r->Err_0@ == json_error_text(text@),
{
    match serde_json::from_str::<serde_json::Value>(text) {
        Ok(v) => Ok(v),
        Err(e) => Err(e.to_string()),
    }
}

/// The type of a response.
#[derive(Debug, Clone, Copy, PartialEq, Eq, Structural)]
pub enum ResponseType {
    /// Same-origin, `data:`, or `navigate` / `websocket` mode.
    Basic,
    /// Cross-origin and processed with CORS.
    Cors,
    /// A network error.
    Error,
    /// Cross-origin with mode `no-cors`.
    Opaque,
    /// A manual redirect.
    OpaqueRedirect,
}

/// The JavaScript string of a response type.
pub open spec fn response_type_name(t: ResponseType) -> Seq<char> {
    match t {
        ResponseType::Basic => "basic"@,
        ResponseType::Cors => "cors"@,
        ResponseType::Error => "error"@,
        ResponseType::Opaque => "opaque"@,
        ResponseType::OpaqueRedirect => "opaqueredirect"@,
    }
}

/// The response type that a string names, if any.
pub open spec fn response_type_of_name(s: Seq<char>) -> Option<ResponseType> {
    if s == "basic"@ {
        Some(ResponseType::Basic)
    } else if s == "cors"@ {
        Some(ResponseType::Cors)
    } else if s == "error"@ {
        Some(ResponseType::Error)
    } else if s == "opaque"@ {
        Some(ResponseType::Opaque)
    } else if s == "opaqueredirect"@ {
        Some(ResponseType::OpaqueRedirect)
    } else {
        None
    }
}

impl ResponseType {
    /// The JavaScript string representing this response type.
    pub fn to_string(self) -> (r: &'static str)
        ensures
            r@ == response_type_name(self),
    {
        match self {
            ResponseType::Basic => "basic",
            ResponseType::Cors => "cors",
            ResponseType::Error => "error",
            ResponseType::Opaque => "opaque",
            ResponseType::OpaqueRedirect => "opaqueredirect",
        }
    }

    /// The response type named by `value` (the result of `ToString` on the JavaScript
    /// value); any other string is a `TypeError`.
    pub fn try_from_str(value: &str) -> (r: JsResult<ResponseType>)
        ensures
            match response_type_of_name(value@) {
                Some(t) => r == Ok::<ResponseType, JsError>(t),
                None => r == Err::<ResponseType, JsError>(type_error(Reason::InvalidResponseType)),
            },
    {
        if str_eq(value, "basic") {
            Ok(ResponseType::Basic)
        } else if str_eq(value, "cors") {
            Ok(ResponseType::Cors)
        } else if str_eq(value, "error") {
            Ok(ResponseType::Error)
        } else if str_eq(value, "opaque") {
            Ok(ResponseType::Opaque)
        } else if str_eq(value, "opaqueredirect") {
            Ok(ResponseType::OpaqueRedirect)
        } else {
            Err(make_type_error(Reason::InvalidResponseType))
        }
    }
}

/// Every response type is named by its string.
pub proof fn lemma_response_type_roundtrip(t: ResponseType)
    ensures
        response_type_of_name(response_type_name(t)) == Some(t),
{
    reveal_strlit("basic");
    reveal_strlit("cors");
    reveal_strlit("error");
    reveal_strlit("opaque");
    reveal_strlit("opaqueredirect");
    match t {
        ResponseType::Basic => {},
        ResponseType::Cors => {
            assert("cors"@.len() != "basic"@.len());
        },
        ResponseType::Error => {
            assert("error"@[0] != "basic"@[0]);
            assert("error"@.len() != "cors"@.len());
        },
        ResponseType::Opaque => {
            assert("opaque"@.len() != "basic"@.len());
            assert("opaque"@.len() != "cors"@.len());
            assert("opaque"@.len() != "error"@.len());
        },
        ResponseType::OpaqueRedirect => {
            assert("opaqueredirect"@.len() != "basic"@.len());
            assert("opaqueredirect"@.len() != "cors"@.len());
            assert("opaqueredirect"@.len() != "error"@.len());
            assert("opaqueredirect"@.len() != "opaque"@.len());
        },
    }
}

/// A header: a name and a value.
pub struct HeaderEntry {
    /// The header name.
    pub name: String,
    /// The header value.
    pub value: String,
}

/// A header list, in order.
pub struct Headers {
    /// The headers.
    pub entries: Vec<HeaderEntry>,
}

impl View for Headers {
    type V = Seq<(Seq<char>, Seq<char>)>;

    open spec fn view(&self) -> Seq<(Seq<char>, Seq<char>)> {
        Seq::new(self.entries@.len(), |i: int| (self.entries@[i].name@, self.entries@[i].value@))
    }
}

/// The code point of the ASCII lower case of a character.
pub open spec fn ascii_lower(c: char) -> u32 {
    if 'A' <= c && c <= 'Z' { ((c as u32) + 32) as u32 } else { c as u32 }
}

/// Two header names are equal up to ASCII case.
pub open spec fn names_match(a: Seq<char>, b: Seq<char>) -> bool {
    a.len() == b.len() && forall|i: int| 0 <= i < a.len() ==> ascii_lower(#[trigger] a[i]) == ascii_lower(b[i])
}

/// Whether a header list has a header with this name, up to ASCII case.
pub open spec fn has_header(h: Seq<(Seq<char>, Seq<char>)>, name: Seq<char>) -> bool {
    exists|i: int| 0 <= i < h.len() && names_match((#[trigger] h[i]).0, name)
}

/// The code point of the ASCII lower case of a character.
fn lower_char(c: char) -> (r: u32)
    ensures
        r == ascii_lower(c),
{
    if 'A' <= c && c <= 'Z' {
        (c as u32) + 32
    } else {
        c as u32
    }
}

/// Whether two names are equal up to ASCII case.
fn header_names_match(a: &str, b: &str) -> (r: bool)
    ensures
        r == names_match(a@, b@),
{
    let n = a.unicode_len();
    if n != b.unicode_len() {
        return false;
    }
    let mut i: usize = 0;
    while i < n
        invariant
            n == a@.len(),
            n == b@.len(),
            i <= n,
            forall|j: int| 0 <= j < i ==> ascii_lower(#[trigger] a@[j]) == ascii_lower(b@[j]),
        decreases n - i,
    {
        if lower_char(a.get_char(i)) != lower_char(b.get_char(i)) {
            return false;
        }
        i = i + 1;
    }
    true
}

impl Headers {
    /// An empty header list.
    pub fn new() -> (r: Headers)
        ensures
            r@ == Seq::<(Seq<char>, Seq<char>)>::empty(),
    {
        Headers { entries: Vec::new() }
    }

    /// Whether the list has a header named `name`, up to ASCII case.
    pub fn has(&self, name: &str) -> (r: bool)
        ensures
            r == has_header(self@, name@),
    {
        let mut i: usize = 0;
        while i < self.entries.len()
            invariant
                i <= self.entries@.len(),
                forall|j: int| 0 <= j < i ==> !names_match((#[trigger] self@[j]).0, name@),
            decreases self.entries@.len() - i,
        {
            if header_names_match(self.entries[i].name.as_str(), name) {
                assert(names_match(self@[i as int].0, name@));
                return true;
            }
            i = i + 1;
        }
        false
    }

    /// The value of the first header named `name`, up to ASCII case.
    pub fn get(&self, name: &str) -> (r: Option<String>)
        ensures
            match r {
                Some(v) => exists|i: int| 0 <= i < self@.len() && names_match((#[trigger] self@[i]).0, name@)
                    && v@ == self@[i].1 && forall|j: int| 0 <= j < i ==> !names_match((#[trigger] self@[j]).0, name@),
                None => !has_header(self@, name@),
            },
    {
        let mut i: usize = 0;
        while i < self.entries.len()
            invariant
                i <= self.entries@.len(),
                forall|j: int| 0 <= j < i ==> !names_match((#[trigger] self@[j]).0, name@),
            decreases self.entries@.len() - i,
        {
            if header_names_match(self.entries[i].name.as_str(), name) {
                let v = self.entries[i].value.clone();
                assert(names_match(self@[i as int].0, name@));
                return Some(v);
            }
            i = i + 1;
        }
        None
    }

    /// Appends a header.
    pub fn append(&mut self, name: String, value: String)
        ensures
            final(self)@ == old(self)@.push((name@, value@)),
    {
        let ghost old_view = self@;
        self.entries.push(HeaderEntry { name, value });
        assert(self@ =~= old_view.push((name@, value@)));
    }

    /// A copy of the list.
    pub fn copy(&self) -> (r: Headers)
        ensures
            r@ == self@,
    {
        let mut out: Vec<HeaderEntry> = Vec::new();
        let mut i: usize = 0;
        while i < self.entries.len()
            invariant
                i <= self.entries@.len(),
                out@.len() == i,
                forall|j: int| 0 <= j < i ==> (#[trigger] out@[j]).name@ == self.entries@[j].name@ && out@[j].value@ == self.entries@[j].value@,
            decreases self.entries@.len() - i,
        {
            out.push(HeaderEntry { name: self.entries[i].name.clone(), value: self.entries[i].value.clone() });
            i = i + 1;
        }
        let r = Headers { entries: out };
        assert(r@ =~= self@);
        r
    }
}

/// A copy of a byte sequence.
fn copy_bytes(b: &Vec<u8>) -> (r: Vec<u8>)
    ensures
        r@ == b@,
{
    let mut out: Vec<u8> = Vec::new();
    let mut i: usize = 0;
    while i < b.len()
        invariant
            i <= b@.len(),
            out@ == b@.take(i as int),
        decreases b@.len() - i,
    {
        out.push(b[i]);
        i = i + 1;
        assert(out@ =~= b@.take(i as int));
    }
    assert(b@.take(b@.len() as int) =~= b@);
    out
}

/// A response.
pub struct JsResponse {
    /// The URL.
    pub url: String,
    /// The type.
    pub response_type: ResponseType,
    /// The status code, absent for an error response.
    pub status: Option<u16>,
    /// The status message.
    pub status_text: String,
    /// The header list.
    pub headers: Headers,
    /// The body, absent when there is none.
    pub body: Option<Vec<u8>>,
}

/// The status message that a status code has by default: its canonical reason, or empty.
pub open spec fn default_status_text(code: u16) -> Seq<char> {
    match canonical_reason_of(code) {
        Some(s) => s,
        None => Seq::empty(),
    }
}

/// The body's bytes, or none.
pub open spec fn body_bytes(body: Option<Vec<u8>>) -> Seq<u8> {
    match body {
        Some(b) => b@,
        None => Seq::empty(),
    }
}

/// A status message that the reason-phrase production accepts: printable ASCII only.
pub open spec fn valid_status_text(s: Seq<char>) -> bool {
    forall|i: int| 0 <= i < s.len() ==> ' ' <= #[trigger] s[i] && s[i] <= '~'
}

/// A null body status: 101, 103, 204, 205 or 304.
pub open spec fn is_null_body_status(code: u16) -> bool {
    code == 101 || code == 103 || code == 204 || code == 205 || code == 304
}

/// The default canonical reason of a status code, or the empty string.
fn default_reason(code: u16) -> (r: String)
    requires
        100 <= code <= 999,
    ensures
        r@ == default_status_text(code),
{
    match status_canonical_reason(code) {
        Some(s) => String::from_str(s),
        None => String::new(),
    }
}

/// Options of the `Response` constructor.
pub struct JsResponseOptions {
    /// `status`.
    pub status: Option<u16>,
    /// `statusText`.
    pub status_text: Option<String>,
    /// `headers`.
    pub headers: Option<Headers>,
}

/// What the `Response` constructor accepts as a body, once the engine has read it.
pub enum BodyInit {
    /// A `Uint8Array`: its bytes.
    Bytes(Vec<u8>),
    /// A string.
    Text(String),
    /// Any other value: the result of `ToString` on it.
    Other(String),
}

/// A JSON body that `serde_json` refused: a `SyntaxError` with this message.
pub struct JsonSyntaxError {
    /// The message.
    pub message: String,
}

/// Whether every character of `s` is printable ASCII.
fn status_text_is_valid(s: &str) -> (r: bool)
    ensures
        r == valid_status_text(s@),
{
    let n = s.unicode_len();
    let mut i: usize = 0;
    while i < n
        invariant
            n == s@.len(),
            i <= n,
            forall|j: int| 0 <= j < i ==> ' ' <= #[trigger] s@[j] && s@[j] <= '~',
        decreases n - i,
    {
        let ch = s.get_char(i);
        if ch < ' ' || ch > '~' || ch == '\x7F' {
            return false;
        }
        i = i + 1;
    }
    true
}

/// The extracted body as plain values: its bytes and its type, if any.
pub open spec fn body_with_type_view(b: Option<(Vec<u8>, Option<String>)>) -> Option<(Seq<u8>, Option<Seq<char>>)> {
    match b {
        Some((data, Some(t))) => Some((data@, Some(t@))),
        Some((data, None)) => Some((data@, None)),
        None => None,
    }
}

/// What "initialize a response" gives for these options and this extracted body: the
/// first error among a status outside 200 to 599 (`RangeError`), a status message that is
/// not printable ASCII (`TypeError`) and a body with a null body status (`TypeError`);
/// otherwise a basic response with no URL, the status, the status message (the status's
/// canonical reason by default), the headers (with the body's type as `Content-Type`
/// unless they have one) and the body.
pub open spec fn initialize_outcome(options: JsResponseOptions, body: Option<(Seq<u8>, Option<Seq<char>>)>, r: JsResult<JsResponse>) -> bool {
    let status = match options.status { Some(s) => s, None => 200u16 };
    let headers0 = match options.headers { Some(h) => h@, None => Seq::empty() };
    if !(200 <= status <= 599) {
        r == Err::<JsResponse, JsError>(range_error(Reason::StatusOutOfRange))
    } else if options.status_text matches Some(t) && !valid_status_text(t@) {
        r == Err::<JsResponse, JsError>(type_error(Reason::InvalidStatusText))
    } else if body is Some && is_null_body_status(status) {
        r == Err::<JsResponse, JsError>(type_error(Reason::NullBodyStatus))
    } else {
        r matches Ok(resp)
            && resp.url@ == Seq::<char>::empty()
            && resp.response_type == ResponseType::Basic
            && resp.status == Some(status)
            && resp.status_text@ == (match options.status_text { Some(t) => t@, None => default_status_text(status) })
            && resp.headers@ == (match body {
                Some((_, Some(ct))) => if has_header(headers0, "content-type"@) { headers0 } else {
                    headers0.push(("content-type"@, ct))
                },
                _ => headers0,
            })
            && (match body {
                Some((data, _)) => resp.body matches Some(b) && b@ == data,
                None => resp.body is None,
            })
    }
}

/// What "extract a body" gives for a body: its bytes and its type.
pub open spec fn spec_extract_body(body: BodyInit) -> (Seq<u8>, Option<Seq<char>>) {
    match body {
        BodyInit::Bytes(b) => (b@, None),
        BodyInit::Text(s) => (vstd::utf8::encode_utf8(s@), Some("text/plain;charset=UTF-8"@)),
        BodyInit::Other(s) => (vstd::utf8::encode_utf8(s@), None),
    }
}

impl JsResponse {
    /// The response that a fetch of `url` produced, with its status, headers and body; an
    /// empty body is no body.
    pub fn basic(url: String, status: u16, headers: Headers, body: Vec<u8>) -> (r: JsResponse)
        requires
            100 <= status <= 999,
        ensures
            r.url@ == url@,
            r.response_type == ResponseType::Basic,
            r.status == Some(status),
            r.status_text@ == default_status_text(status),
            r.headers@ == headers@,
            body@.len() == 0 ==> r.body is None,
            body@.len() > 0 ==> (r.body matches Some(b) && b@ == body@),
    {
        let status_text = default_reason(status);
        let body = if body.len() == 0 { None } else { Some(body) };
        JsResponse { url, response_type: ResponseType::Basic, status: Some(status), status_text, headers, body }
    }

    /// `Response.error()`: a network error, with no status, headers nor body.
    pub fn error() -> (r: JsResponse)
        ensures
            r.url@ == Seq::<char>::empty(),
            r.response_type == ResponseType::Error,
            r.status is None,
            r.status_text@ == Seq::<char>::empty(),
            r.headers@ == Seq::<(Seq<char>, Seq<char>)>::empty(),
            r.body is None,
    {
        JsResponse {
            url: String::new(),
            response_type: ResponseType::Error,
            status: None,
            status_text: String::new(),
            headers: Headers::new(),
            body: None,
        }
    }

    /// A copy of the body.
    pub fn body(&self) -> (r: Option<Vec<u8>>)
        ensures
            match self.body {
                Some(b) => r matches Some(c) && c@ == b@,
                None => r is None,
            },
    {
        match &self.body {
            Some(b) => Some(copy_bytes(b)),
            None => None,
        }
    }

    /// The `status` getter: 0 for an error response.
    pub fn status(&self) -> (r: u16)
        ensures
            r == (match self.status { Some(s) => s, None => 0 }),
    {
        match self.status {
            Some(s) => s,
            None => 0,
        }
    }

    /// The `statusText` getter.
    pub fn status_text(&self) -> (r: String)
        ensures
            r@ == self.status_text@,
    {
        self.status_text.clone()
    }

    /// The `headers` getter.
    pub fn headers(&self) -> (r: Headers)
        ensures
            r@ == self.headers@,
    {
        self.headers.copy()
    }

    /// The `type` getter.
    pub fn response_type(&self) -> (r: &'static str)
        ensures
            r@ == response_type_name(self.response_type),
    {
        self.response_type.to_string()
    }

    /// The `url` getter.
    pub fn url(&self) -> (r: String)
        ensures
            r@ == self.url@,
    {
        self.url.clone()
    }

    /// `bytes()`: the body's bytes, empty when there is no body.
    pub fn bytes(&self) -> (r: Vec<u8>)
        ensures
            r@ == body_bytes(self.body),
    {
        match &self.body {
            Some(b) => copy_bytes(b),
            None => Vec::new(),
        }
    }

    /// `text()`: the body decoded as UTF-8, each invalid sequence replaced by U+FFFD.
    pub fn text(&self) -> (r: String)
        ensures
            r@ == utf8_lossy(body_bytes(self.body)),
            vstd::utf8::valid_utf8(body_bytes(self.body)) ==> r@ == vstd::utf8::decode_utf8(body_bytes(self.body)),
    {
        let b = self.bytes();
        from_utf8_lossy(b.as_slice())
    }

    /// `json()`: the body decoded as `text()` does, then parsed as JSON; a text that is
    /// not JSON is a `SyntaxError` with `serde_json`'s message. The engine makes a
    /// JavaScript value of the result.
    pub fn json(&self) -> (r: Result<serde_json::Value, JsonSyntaxError>)
        ensures
            r is Ok <==> json_accepts(utf8_lossy(body_bytes(self.body))),
            r is Ok ==> r->Ok_0 == json_value_of(utf8_lossy(body_bytes(self.body))),
            r is Err ==> r->Err_0.message@ == json_error_text(utf8_lossy(body_bytes(self.body))),
    {
        let text = self.text();
        match json_from_str(text.as_str()) {
            Ok(v) => Ok(v),
            Err(message) => Err(JsonSyntaxError { message }),
        }
    }

    /// "Initialize a response" with the constructor's options and the extracted body:
    /// the status (200 by default) must be from 200 to 599, the status message must be
    /// printable ASCII, and a null body status cannot have a body. The status message
    /// defaults to the status's canonical reason, and a body with a type adds a
    /// `Content-Type` header unless the headers have one.
    pub fn initialize(options: JsResponseOptions, body_with_type: Option<(Vec<u8>, Option<String>)>) -> (r: JsResult<JsResponse>)
        ensures
            initialize_outcome(options, body_with_type_view(body_with_type), r),
    {
        let status = match options.status {
            Some(s) => s,
            None => 200u16,
        };
        if !(200 <= status && status <= 599) {
            return Err(make_range_error(Reason::StatusOutOfRange));
        }
        if let Some(t) = &options.status_text {
            if !status_text_is_valid(t.as_str()) {
                return Err(make_type_error(Reason::InvalidStatusText));
            }
        }
        if status_code_from_u16(status).is_err() {
            return Err(make_range_error(Reason::InvalidStatusCode));
        }
        let status_text = match options.status_text {
            Some(t) => t,
            None => default_reason(status),
        };
        let mut headers = match options.headers {
            Some(h) => h,
            None => Headers::new(),
        };
        let body = match body_with_type {
            Some((body_data, body_type)) => {
                if status == 101 || status == 103 || status == 204 || status == 205 || status == 304 {
                    return Err(make_type_error(Reason::NullBodyStatus));
                }
                if let Some(content_type) = body_type {
                    if !headers.has("content-type") {
                        headers.append(String::from_str("content-type"), content_type);
                    }
                }
                Some(body_data)
            },
            None => None,
        };
        Ok(JsResponse {
            url: String::new(),
            response_type: ResponseType::Basic,
            status: Some(status),
            status_text,
            headers,
            body,
        })
    }
}

impl JsResponse {
    /// `new Response(body, init)`: the body (absent for `null` or `undefined`) is
    /// extracted, then the response is initialized with the options.
    pub fn constructor(body: Option<BodyInit>, options: JsResponseOptions) -> (r: JsResult<JsResponse>)
        ensures
            initialize_outcome(options, match body { Some(b) => Some(spec_extract_body(b)), None => None }, r),
    {
        let body_with_type = match body {
            Some(b) => Some(extract_body(b)),
            None => None,
        };
        Self::initialize(options, body_with_type)
    }
}

/// "Extract a body": the bytes of a `Uint8Array`; a string's UTF-8 bytes, typed
/// `text/plain;charset=UTF-8`; and the UTF-8 bytes of any other value's `ToString`.
pub fn extract_body(body: BodyInit) -> (r: (Vec<u8>, Option<String>))
    ensures
        body_with_type_view(Some(r)) == Some(spec_extract_body(body)),
{
    match body {
        BodyInit::Bytes(b) => (b, None),
        BodyInit::Text(s) => (s.as_str().as_bytes_vec(), Some(String::from_str("text/plain;charset=UTF-8"))),
        BodyInit::Other(s) => (s.as_str().as_bytes_vec(), None),
    }
}

/// A response that "initialize a response" accepts has a status from 200 to 599, so
/// never the 0 of an error response, and it has a body only when its status is not a
/// null body status.
pub proof fn lemma_initialized_status(options: JsResponseOptions, body: Option<(Seq<u8>, Option<Seq<char>>)>, r: JsResult<JsResponse>)
    requires
        initialize_outcome(options, body, r),
        r is Ok,
    ensures
        r matches Ok(resp) && resp.status matches Some(s) && 200 <= s <= 599
            && (resp.body is Some ==> !is_null_body_status(s)),
{
}

} // verus!
