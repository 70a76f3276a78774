//! The HTTP relay: one call of the front-end, forwarded to its target and
//! answered with a uniform envelope.
//!
//! The caller sends the request and reads the response. This module decides
//! what is sent, how the response body is to be read, and what the envelope
//! holds.

use crate::headers::Headers;
use crate::text::{has_prefix, lowercase, same_text, starts_with, to_chars, uppercase};
use vstd::prelude::*;
use vstd::string::StringExecFns;

verus! {

/// A call to relay.
#[derive(Debug, Clone, PartialEq, Eq)]
pub struct HttpRequest {
    pub url: String,
    pub method: String,
    pub body: Option<String>,
    pub headers: Option<Vec<(String, String)>>,
}

/// The envelope of a relayed response. Where `is_base64` is set, `body` is
/// the base64 encoding of a binary body; else it is the body's text.
#[derive(Debug, Clone)]
pub struct HttpResponse {
    pub status: u16,
    pub body: String,
    pub headers: Headers,
    pub is_base64: bool,
}

/// The methods that the relay forwards.
#[derive(Clone, Copy, Debug, PartialEq, Eq, Structural)]
pub enum Method {
    Get,
    Post,
    Put,
    Delete,
}

/// The method that a name in upper case stands for, if it is one that the
/// relay forwards.
pub open spec fn method_of(upper: Seq<char>) -> Option<Method> {
    if upper == "GET"@ {
        Some(Method::Get)
    } else if upper == "POST"@ {
        Some(Method::Post)
    } else if upper == "PUT"@ {
        Some(Method::Put)
    } else if upper == "DELETE"@ {
        Some(Method::Delete)
    } else {
        None
    }
}

/// Selects the method for a name that is already in upper case.
pub fn method_from_upper(upper: &str) -> (m: Option<Method>)
    ensures
        m == method_of(upper@),
{
    if same_text(upper, "GET") {
        Some(Method::Get)
    } else if same_text(upper, "POST") {
        Some(Method::Post)
    } else if same_text(upper, "PUT") {
        Some(Method::Put)
    } else if same_text(upper, "DELETE") {
        Some(Method::Delete)
    } else {
        None
    }
}

/// Selects the method for a name in any case.
pub fn select_method(name: &str) -> (m: Option<Method>)
    ensures
        m == method_of(uppercase(name@)),
{
    let upper = crate::text::to_uppercase(name);
    method_from_upper(upper.as_str())
}

/// What a caller is told whose method the relay does not forward.
pub open spec fn unsupported_method_text(method: Seq<char>) -> Seq<char> {
    "[proxy] Unsupported method: "@ + method
}

/// The views of the pairs in `v`.
pub open spec fn pair_views(v: Seq<(String, String)>) -> Seq<(Seq<char>, Seq<char>)> {
    v.map_values(|p: (String, String)| (p.0@, p.1@))
}

/// The header that a request with a body is given.
pub open spec fn json_content_type() -> (Seq<char>, Seq<char>) {
    ("Content-Type"@, "application/json"@)
}

/// The headers that go out with a request: the caller's, in their order,
/// and behind them the JSON content type where the request has a body.
pub open spec fn planned_headers(
    given: Option<Vec<(String, String)>>,
    has_body: bool,
) -> Seq<(Seq<char>, Seq<char>)> {
    let own = match given {
        Some(v) => pair_views(v@),
        None => Seq::empty(),
    };
    if has_body {
        own.push(json_content_type())
    } else {
        own
    }
}

/// What is to be sent for a call.
#[derive(Debug, Clone, PartialEq, Eq)]
pub struct RequestPlan {
    pub method: Method,
    pub url: String,
    pub headers: Vec<(String, String)>,
    pub body: Option<String>,
}

/// Plans the request for a call. A call whose method is none of GET, POST,
/// PUT and DELETE, in any case, is refused before anything is sent. Else the
/// plan holds the method, the target, the caller's headers, and the body
/// with its JSON content type where there is one.
pub fn plan_request(request: HttpRequest) -> (r: Result<RequestPlan, String>)
    ensures
        match r {
            Ok(plan) => {
                &&& method_of(uppercase(request.method@)) == Some(plan.method)
                &&& plan.url@ == request.url@
                &&& pair_views(plan.headers@) == planned_headers(
                    request.headers,
                    request.body is Some,
                )
                &&& plan.body == request.body
            },
            Err(text) => {
                &&& method_of(uppercase(request.method@)) is None
                &&& text@ == unsupported_method_text(request.method@)
            },
        },
{
    let method = match select_method(request.method.as_str()) {
        Some(m) => m,
        None => {
            let mut text = String::from_str("[proxy] Unsupported method: ");
            text.append(request.method.as_str());
            return Err(text);
        },
    };
    let mut headers: Vec<(String, String)> = match request.headers {
        Some(v) => v,
        None => Vec::new(),
    };
    if request.body.is_some() {
        let ghost before = pair_views(headers@);
        headers.push((String::from_str("Content-Type"), String::from_str("application/json")));
        assert(pair_views(headers@) == before.push(json_content_type()));
    }
    Ok(RequestPlan { method, url: request.url, headers, body: request.body })
}

/// Whether a content type, already in lower case, says that the body is
/// binary: an image, audio, video, an octet stream or a PDF.
pub open spec fn is_binary(lowered: Seq<char>) -> bool {
    ||| has_prefix(lowered, "image/"@)
    ||| has_prefix(lowered, "audio/"@)
    ||| has_prefix(lowered, "video/"@)
    ||| has_prefix(lowered, "application/octet-stream"@)
    ||| has_prefix(lowered, "application/pdf"@)
}

/// Tests whether a content type that is already in lower case says that the
/// body is binary.
pub fn is_binary_lowered(lowered: &str) -> (r: bool)
    ensures
        r == is_binary(lowered@),
{
    let text = to_chars(lowered);
    starts_with(&text, &to_chars("image/")) || starts_with(&text, &to_chars("audio/"))
        || starts_with(&text, &to_chars("video/")) || starts_with(
        &text,
        &to_chars("application/octet-stream"),
    ) || starts_with(&text, &to_chars("application/pdf"))
}

/// Tests whether a content type, in any case, says that the body is binary.
pub fn is_binary_content_type(content_type: &str) -> (r: bool)
    ensures
        r == is_binary(lowercase(content_type@)),
{
    let lowered = crate::text::to_lowercase(content_type);
    is_binary_lowered(lowered.as_str())
}

/// The response headers as they come in: a name and, where the value is
/// text, the value.
pub open spec fn raw_views(v: Seq<(String, Option<String>)>) -> Seq<
    (Seq<char>, Option<Seq<char>>),
> {
    v.map_values(
        |p: (String, Option<String>)|
            (
                p.0@,
                match p.1 {
                    Some(value) => Some(value@),
                    None => None,
                },
            ),
    )
}

/// The mapping that the response headers come to: each header whose value is
/// text is entered in turn, so the last value of a name stands; a header
/// whose value is no text is left out.
pub open spec fn collected(raw: Seq<(Seq<char>, Option<Seq<char>>)>) -> Map<Seq<char>, Seq<char>>
    decreases raw.len(),
{
    if raw.len() == 0 {
        Map::empty()
    } else {
        match raw.last().1 {
            Some(value) => collected(raw.drop_last()).insert(raw.last().0, value),
            None => collected(raw.drop_last()),
        }
    }
}

/// Collects the response headers into a mapping.
pub fn collect_headers(raw: Vec<(String, Option<String>)>) -> (headers: Headers)
    ensures
        headers@ == collected(raw_views(raw@)),
{
    let mut headers = Headers::new();
    let mut i: usize = 0;
    while i < raw.len()
        invariant
            i <= raw.len(),
            headers@ == collected(raw_views(raw@).take(i as int)),
        decreases raw.len() - i,
    {
        let ghost next = raw_views(raw@).take(i + 1);
        assert(next.drop_last() == raw_views(raw@).take(i as int));
        assert(next.last() == raw_views(raw@)[i as int]);
        match &raw[i].1 {
            Some(value) => {
                headers.insert(raw[i].0.clone(), value.clone());
            },
            None => {},
        }
        i = i + 1;
    }
    assert(raw_views(raw@).take(raw.len() as int) == raw_views(raw@));
    headers
}

/// The content type that the headers give, or the empty text where they
/// give none.
pub open spec fn content_type_of(headers: Map<Seq<char>, Seq<char>>) -> Seq<char> {
    if headers.contains_key("content-type"@) {
        headers["content-type"@]
    } else {
        Seq::empty()
    }
}

/// How a response body is read.
#[derive(Clone, Copy, Debug, PartialEq, Eq, Structural)]
pub enum BodyKind {
    /// As raw bytes, to be encoded.
    Binary,
    /// As text.
    Text,
}

/// How the body of a response with these headers is read: as bytes where
/// the content type says that it is binary, else as text.
pub fn body_kind(headers: &Headers) -> (kind: BodyKind)
    ensures
        kind == if is_binary(lowercase(content_type_of(headers@))) {
            BodyKind::Binary
        } else {
            BodyKind::Text
        },
{
    let binary = match headers.get("content-type") {
        Some(value) => is_binary_content_type(value.as_str()),
        None => {
            let r = is_binary_content_type("");
            proof {
                reveal_strlit("");
                assert(""@ == Seq::<char>::empty());
            }
            r
        },
    };
    if binary {
        BodyKind::Binary
    } else {
        BodyKind::Text
    }
}

/// A response body as it was read.
#[derive(Debug, Clone, PartialEq, Eq)]
pub enum ResponseBody {
    Binary(Vec<u8>),
    Text(String),
}

/// The standard base64 encoding of `bytes`, with padding.
pub uninterp spec fn base64_standard(bytes: Seq<u8>) -> Seq<char>;

/// Whether the base64 encoding of a body of `len` bytes can be held: four
/// characters for every three bytes, in half the address space at most.
pub open spec fn encodable(len: nat) -> bool {
    (len + 2) / 3 * 4 <= usize::MAX / 2
}

/// Encodes `bytes` by `encode` of the base64 crate's standard engine, which
/// gives the encoding in the standard alphabet, with padding, as a `String`.
/// It panics where the size of the result cannot be computed or allocated,
/// which the bound on the length rules out.
#[verifier::external_body]
fn encode_base64(bytes: &[u8]) -> (r: String)
    requires
        encodable(bytes@.len()),
    ensures
        r@ == base64_standard(bytes@),
{
    base64::Engine::encode(&base64::engine::general_purpose::STANDARD, bytes)
}

/// Tests whether a binary body of `len` bytes can be encoded.
pub fn can_encode(len: usize) -> (r: bool)
    ensures
        r == encodable(len as nat),
{
    let groups: usize = if len % 3 == 0 {
        len / 3
    } else {
        len / 3 + 1
    };
    groups <= usize::MAX / 8
}

/// Whether `body` was read as the headers ask, and can be held once it is
/// encoded: bytes where the content type says binary, and not too many of
/// them; text where it does not.
pub open spec fn body_fits(headers: Map<Seq<char>, Seq<char>>, body: ResponseBody) -> bool {
    match body {
        ResponseBody::Binary(bytes) => is_binary(lowercase(content_type_of(headers)))
            && encodable(bytes@.len()),
        ResponseBody::Text(_) => !is_binary(lowercase(content_type_of(headers))),
    }
}

/// Makes the envelope of a response from its status, its headers and its
/// body, read as the headers ask. A binary body goes in as its base64
/// encoding and is marked so; a text goes in as it is. So the mark is set
/// where, and only where, the content type says binary.
pub fn respond(status: u16, headers: Headers, body: ResponseBody) -> (r: HttpResponse)
    requires
        body_fits(headers@, body),
    ensures
        r.status == status,
        r.headers@ == headers@,
        r.is_base64 == is_binary(lowercase(content_type_of(headers@))),
        r.is_base64 == (body is Binary),
        r.body@ == match body {
            ResponseBody::Binary(bytes) => base64_standard(bytes@),
            ResponseBody::Text(text) => text@,
        },
{
    match body {
        ResponseBody::Binary(bytes) => HttpResponse {
            status,
            body: encode_base64(bytes.as_slice()),
            headers,
            is_base64: true,
        },
        ResponseBody::Text(text) => HttpResponse { status, body: text, headers, is_base64: false },
    }
}

/// Makes the envelope of a response as `respond` does, for a body that was
/// read as the headers ask and can be held once encoded. For any other body
/// there is no envelope.
pub fn try_respond(status: u16, headers: Headers, body: ResponseBody) -> (r: Option<HttpResponse>)
    ensures
        r is Some <==> body_fits(headers@, body),
        r matches Some(response) ==> {
            &&& response.status == status
            &&& response.headers@ == headers@
            &&& response.is_base64 == is_binary(lowercase(content_type_of(headers@)))
            &&& response.is_base64 == (body is Binary)
            &&& response.body@ == match body {
                ResponseBody::Binary(bytes) => base64_standard(bytes@),
                ResponseBody::Text(text) => text@,
            }
        },
{
    let kind = body_kind(&headers);
    let fits = match &body {
        ResponseBody::Binary(bytes) => kind == BodyKind::Binary && can_encode(bytes.len()),
        ResponseBody::Text(_) => kind == BodyKind::Text,
    };
    if fits {
        Some(respond(status, headers, body))
    } else {
        None
    }
}

/// What a caller is told for whom no client could be built.
pub open spec fn client_failure_text(error: Seq<char>) -> Seq<char> {
    "[proxy] Failed to create client: "@ + error
}

/// Words the failure to build the relay's client; nothing has been sent.
pub fn client_failure(error: &str) -> (text: String)
    ensures
        text@ == client_failure_text(error@),
{
    let mut text = String::from_str("[proxy] Failed to create client: ");
    text.append(error);
    text
}

/// What the transport says of a request that failed.
#[derive(Debug, Clone, PartialEq, Eq)]
pub struct SendFailure {
    /// The failure in the transport's own words.
    pub text: String,
    /// No connection could be made.
    pub is_connect: bool,
    /// The request took too long.
    pub is_timeout: bool,
    /// The request itself was malformed.
    pub is_request: bool,
    /// The body could not be read.
    pub is_body: bool,
    /// What lies behind the failure, where the transport knows.
    pub source: Option<String>,
}

/// `note` where `holds`, else nothing.
pub open spec fn note_if(holds: bool, note: Seq<char>) -> Seq<char> {
    if holds {
        note
    } else {
        Seq::empty()
    }
}

/// The diagnostic line for a failed request: the transport's words, a note
/// for each class that the failure belongs to, and its source where one is
/// known.
pub open spec fn failure_text(
    text: Seq<char>,
    is_connect: bool,
    is_timeout: bool,
    is_request: bool,
    is_body: bool,
    source: Option<Seq<char>>,
) -> Seq<char> {
    "[proxy] Request failed: "@ + text + note_if(
        is_connect,
        " (Connection error - cannot establish connection)"@,
    ) + note_if(is_timeout, " (Timeout error - request took too long)"@) + note_if(
        is_request,
        " (Request error - invalid request)"@,
    ) + note_if(is_body, " (Body error - failed to read response body)"@) + match source {
        Some(s) => " | Source: "@ + s,
        None => Seq::empty(),
    }
}

impl SendFailure {
    /// The diagnostic line for this failure.
    pub open spec fn report_text(&self) -> Seq<char> {
        failure_text(
            self.text@,
            self.is_connect,
            self.is_timeout,
            self.is_request,
            self.is_body,
            match self.source {
                Some(s) => Some(s@),
                None => None,
            },
        )
    }

    /// Writes the diagnostic line for this failure. The classes are for the
    /// log only.
    pub fn report(&self) -> (line: String)
        ensures
            line@ == self.report_text(),
    {
        let mut line = String::from_str("[proxy] Request failed: ");
        line.append(self.text.as_str());
        let ghost start = line@;
        if self.is_connect {
            line.append(" (Connection error - cannot establish connection)");
        }
        assert(line@ == start + note_if(
            self.is_connect,
            " (Connection error - cannot establish connection)"@,
        ));
        let ghost a = line@;
        if self.is_timeout {
            line.append(" (Timeout error - request took too long)");
        }
        assert(line@ == a + note_if(self.is_timeout, " (Timeout error - request took too long)"@));
        let ghost b = line@;
        if self.is_request {
            line.append(" (Request error - invalid request)");
        }
        assert(line@ == b + note_if(self.is_request, " (Request error - invalid request)"@));
        let ghost c = line@;
        if self.is_body {
            line.append(" (Body error - failed to read response body)");
        }
        assert(line@ == c + note_if(
            self.is_body,
            " (Body error - failed to read response body)"@,
        ));
        let ghost d = line@;
        match &self.source {
            Some(s) => {
                line.append(" | Source: ");
                line.append(s.as_str());
                assert(line@ == d + (" | Source: "@ + s@));
            },
            None => {
                assert(line@ == d + Seq::<char>::empty());
            },
        }
        line
    }

    /// What the caller is told: the transport's own words, and no more.
    pub fn into_error(self) -> (text: String)
        ensures
            text@ == self.text@,
    {
        self.text
    }
}

} // verus!
