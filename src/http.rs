use crate::error::UtilsError;
use vstd::prelude::*;

verus! {

/// The HTTP methods that the API uses.
#[derive(PartialEq, Eq, Structural, Clone, Copy, Debug)]
pub enum Method {
    Get,
    Post,
    Delete,
}

/// A name with a value: a header, or a query parameter.
#[derive(Debug)]
pub struct NameValue {
    pub name: String,
    pub value: String,
}

impl NameValue {
    pub open spec fn view(&self) -> (Seq<char>, Seq<char>) {
        (self.name@, self.value@)
    }

    pub fn new(name: &str, value: &str) -> (r: NameValue)
        ensures
            r.view() == (name@, value@),
    {
        NameValue { name: String::from_str(name), value: String::from_str(value) }
    }
}

/// The pairs of a list of headers or query parameters, in order.
pub open spec fn pairs_view(v: Seq<NameValue>) -> Seq<(Seq<char>, Seq<char>)> {
    v.map_values(|p: NameValue| p.view())
}

/// One part of a multipart form.
#[derive(Debug)]
pub enum FormPart {
    /// A text field.
    Text { name: String, value: String },
    /// A file field; the file is read from `path` when the form is sent.
    File { name: String, path: String },
}

/// What a form part stands for: whether it is a file, its name, and its
/// value or path.
pub open spec fn part_view(p: FormPart) -> (bool, Seq<char>, Seq<char>) {
    match p {
        FormPart::Text { name, value } => (false, name@, value@),
        FormPart::File { name, path } => (true, name@, path@),
    }
}

pub open spec fn parts_view(v: Seq<FormPart>) -> Seq<(bool, Seq<char>, Seq<char>)> {
    v.map_values(|p: FormPart| part_view(p))
}

/// The body of a request.
#[derive(Debug)]
pub enum RequestBody {
    Empty,
    /// JSON text, already encoded.
    Json(Vec<u8>),
    Multipart(Vec<FormPart>),
}

/// A request, complete but for the transport that sends it.
#[derive(Debug)]
pub struct HttpRequest {
    pub method: Method,
    pub url: String,
    pub query: Vec<NameValue>,
    pub headers: Vec<NameValue>,
    pub body: RequestBody,
}

impl HttpRequest {
    pub open spec fn headers_view(&self) -> Seq<(Seq<char>, Seq<char>)> {
        pairs_view(self.headers@)
    }

    pub open spec fn query_view(&self) -> Seq<(Seq<char>, Seq<char>)> {
        pairs_view(self.query@)
    }

    /// The request carries the header `name` with the value `value`.
    pub open spec fn has_header(&self, name: Seq<char>, value: Seq<char>) -> bool {
        self.headers_view().contains((name, value))
    }

    /// The request carries the API key header with the value `key`.
    pub open spec fn carries_api_key(&self, key: Seq<char>) -> bool {
        self.has_header(API_KEY_HEADER@, key)
    }
}

/// A response as the transport received it, fully buffered.
#[derive(Debug)]
pub struct HttpResponse {
    pub status: u16,
    pub body: Vec<u8>,
}

/// The header that carries the API key.
pub const API_KEY_HEADER: &'static str = "xi-api-key";

/// The JSON headers that every plain request starts with.
pub open spec fn json_headers() -> Seq<(Seq<char>, Seq<char>)> {
    seq![("Accept"@, "application/json"@), ("Content-Type"@, "application/json"@)]
}

/// Starts a request of `method` to `url` that accepts and sends JSON.
pub fn create_request(method: Method, url: &str) -> (r: HttpRequest)
    ensures
        r.method == method,
        r.url@ == url@,
        r.query@.len() == 0,
        r.headers_view() == json_headers(),
        r.body == RequestBody::Empty,
{
    let mut headers: Vec<NameValue> = Vec::new();
    headers.push(NameValue::new("Accept", "application/json"));
    headers.push(NameValue::new("Content-Type", "application/json"));
    let r = HttpRequest {
        method,
        url: String::from_str(url),
        query: Vec::new(),
        headers,
        body: RequestBody::Empty,
    };
    assert(r.headers_view() =~= json_headers());
    r
}

/// Whether a character may stand in an HTTP header value: a tab, or any
/// character from the space on but the delete character.
pub open spec fn header_char_ok(c: char) -> bool {
    c == '\t' || (' ' <= c && c != '\x7f')
}

pub open spec fn header_value_ok(s: Seq<char>) -> bool {
    forall|i: int| 0 <= i < s.len() ==> #[trigger] header_char_ok(s[i])
}

/// Relies on reqwest's `header::HeaderValue::from_str`, which accepts exactly
/// the strings whose bytes are all a tab or at least 32 and not 127; a
/// character beyond ASCII is encoded in bytes of 128 and more.
#[verifier::external_body]
fn is_valid_header_value(s: &str) -> (r: bool)
    ensures
        r == header_value_ok(s@),
{
    reqwest::header::HeaderValue::from_str(s).is_ok()
}

/// Relies on reqwest's `StatusCode::from_u16`, which accepts 100..=999, and
/// `StatusCode::is_success`, which holds for 200..=299.
#[verifier::external_body]
fn is_success_status(code: u16) -> (r: bool)
    ensures
        r == (200 <= code && code < 300),
{
    match reqwest::StatusCode::from_u16(code) {
        Ok(status) => status.is_success(),
        Err(_) => false,
    }
}

/// Adds the API key header to `req`, if `key` can be a header value.
pub fn authorize(req: HttpRequest, key: &str) -> (r: Result<HttpRequest, UtilsError>)
    ensures
        header_value_ok(key@) <==> r is Ok,
        !header_value_ok(key@) ==> r == Err::<HttpRequest, UtilsError>(UtilsError::InvalidApiKey),
        r matches Ok(out) ==> {
            &&& out.method == req.method
            &&& out.url == req.url
            &&& out.query == req.query
            &&& out.body == req.body
            &&& out.headers_view() == req.headers_view().push((API_KEY_HEADER@, key@))
            &&& out.carries_api_key(key@)
        },
{
    if !is_valid_header_value(key) {
        return Err(UtilsError::InvalidApiKey);
    }
    let mut req = req;
    let ghost before = req.headers@;
    req.headers.push(NameValue::new(API_KEY_HEADER, key));
    assert(req.headers_view() =~= pairs_view(before).push((API_KEY_HEADER@, key@)));
    assert(req.headers_view().last() == (API_KEY_HEADER@, key@));
    Ok(req)
}

/// What a response outcome gives the caller: the transport's failure as
/// `Http`, a status outside 200..=299 as `Status`, or else the body.
pub open spec fn outcome_spec(
    outcome: Result<HttpResponse, String>,
) -> Result<Seq<u8>, UtilsError> {
    match outcome {
        Err(m) => Err(UtilsError::Http(m)),
        Ok(resp) => if 200 <= resp.status && resp.status < 300 {
            Ok(resp.body@)
        } else {
            Err(UtilsError::Status { code: resp.status, body: resp.body })
        },
    }
}

/// Maps the outcome of sending a request to the body of a successful
/// response, or to the error that the caller receives.
pub fn expect_success(outcome: Result<HttpResponse, String>) -> (r: Result<Vec<u8>, UtilsError>)
    ensures
        match (r, outcome_spec(outcome)) {
            (Ok(b), Ok(s)) => b@ == s,
            (Err(e), Err(s)) => e == s,
            _ => false,
        },
{
    match outcome {
        Err(m) => Err(UtilsError::Http(m)),
        Ok(resp) => {
            if is_success_status(resp.status) {
                Ok(resp.body)
            } else {
                Err(UtilsError::Status { code: resp.status, body: resp.body })
            }
        },
    }
}

} // verus!
