//! The checks and decisions around an outbound HTTP request.
//!
//! Sending is the host's part. Here the request is checked and prepared
//! before any network call (proxy scheme, method, headers), and the
//! response is judged once it has come back (status, JSON body).
use vstd::prelude::*;

use crate::text::{join_text, decimal, decimal_text, same_text};

verus! {

#[verifier::external_type_specification]
#[verifier::external_body]
pub struct ExJsonValue(serde_json::Value);

/// The scheme of `s` read as an absolute URL, or `None` where `s` is no URL.
pub uninterp spec fn url_scheme(s: Seq<char>) -> Option<Seq<char>>;

/// Relies on `url::Url::parse` and `Url::scheme`: the scheme of the parsed
/// URL, or the parser's description of why `s` is no URL.
#[verifier::external_body]
fn parse_url_scheme(s: &str) -> (r: Result<String, String>)
    ensures
        r is Ok <==> url_scheme(s@) is Some,
        r is Ok ==> r->Ok_0@ == url_scheme(s@)->0,
{
    match url::Url::parse(s) {
        Ok(u) => Ok(u.scheme().to_string()),
        Err(e) => Err(e.to_string()),
    }
}

/// Whether `s` is JSON text.
pub uninterp spec fn json_text_valid(s: Seq<char>) -> bool;

/// Relies on `serde_json::from_str::<serde_json::Value>`: the parsed value, or
/// the parser's description of why `s` is no JSON; empty text is no JSON.
#[verifier::external_body]
fn parse_json(s: &str) -> (r: Result<serde_json::Value, String>)
    ensures
        r is Ok <==> json_text_valid(s@),
        s@.len() == 0 ==> r is Err,
{
    serde_json::from_str::<serde_json::Value>(s).map_err(|e| e.to_string())
}

/// A character allowed in a header name (a token character of HTTP).
pub open spec fn is_token_char(c: char) -> bool {
    ||| ('a' <= c && c <= 'z')
    ||| ('A' <= c && c <= 'Z')
    ||| ('0' <= c && c <= '9')
    ||| c == '!' || c == '#' || c == '$' || c == '%' || c == '&' || c == '\''
    ||| c == '*' || c == '+' || c == '-' || c == '.' || c == '^' || c == '_'
    ||| c == '`' || c == '|' || c == '~'
}

/// A header name that HTTP accepts: one to 65535 token characters.
pub open spec fn header_name_ok(s: Seq<char>) -> bool {
    &&& 1 <= s.len() <= 65535
    &&& forall|i: int| 0 <= i < s.len() ==> is_token_char(#[trigger] s[i])
}

/// A header value that HTTP accepts: no control character but the tab.
pub open spec fn header_value_ok(s: Seq<char>) -> bool {
    forall|i: int|
        0 <= i < s.len() ==> (#[trigger] s[i] == '\t' || (s[i] >= ' ' && s[i] != '\x7f'))
}

/// Relies on `http::HeaderName::from_bytes`, which accepts exactly the names
/// of one to 65535 bytes that are all token characters.
#[verifier::external_body]
fn is_header_name(s: &str) -> (r: bool)
    ensures
        r == header_name_ok(s@),
{
    http::HeaderName::from_bytes(s.as_bytes()).is_ok()
}

/// Relies on `http::HeaderValue::from_str`, which accepts exactly the strings
/// whose bytes are all a tab or at least 32 and not 127.
#[verifier::external_body]
fn is_header_value(s: &str) -> (r: bool)
    ensures
        r == header_value_ok(s@),
{
    http::HeaderValue::from_str(s).is_ok()
}

/// The methods a request may use.
#[derive(PartialEq, Eq, Structural, Clone, Copy, Debug)]
pub enum HttpMethod {
    Get,
    Post,
    Put,
    Delete,
}

/// The method named `s`, written in capitals, if it is one of the four.
pub open spec fn method_named(s: Seq<char>) -> Option<HttpMethod> {
    if s == "GET"@ {
        Some(HttpMethod::Get)
    } else if s == "POST"@ {
        Some(HttpMethod::Post)
    } else if s == "PUT"@ {
        Some(HttpMethod::Put)
    } else if s == "DELETE"@ {
        Some(HttpMethod::Delete)
    } else {
        None
    }
}

/// Reads a method name.
pub fn parse_method(s: &str) -> (r: Option<HttpMethod>)
    ensures
        r == method_named(s@),
{
    if same_text(s, "GET") {
        Some(HttpMethod::Get)
    } else if same_text(s, "POST") {
        Some(HttpMethod::Post)
    } else if same_text(s, "PUT") {
        Some(HttpMethod::Put)
    } else if same_text(s, "DELETE") {
        Some(HttpMethod::Delete)
    } else {
        None
    }
}

/// The proxy schemes a request may go through.
pub open spec fn proxy_scheme_supported(s: Seq<char>) -> bool {
    s == "http"@ || s == "https"@ || s == "socks5"@
}

/// Why a request failed.
#[derive(PartialEq, Eq, Clone, Debug)]
pub enum ApiError {
    /// The proxy is no URL; with the parser's description.
    ProxyUrl(String),
    /// The proxy URL has a scheme other than http, https and socks5.
    UnsupportedProxy,
    /// The HTTP client refused the proxy; with its description.
    ProxySetup(String),
    /// The HTTP client could not be built; with its description.
    Client(String),
    /// The method is none of GET, POST, PUT and DELETE.
    UnsupportedMethod(String),
    /// The request could not be sent; with the client's description.
    Send(String),
    /// The response status is not 2xx; with the response text.
    Status { status: u16, body: String },
    /// A 2xx response whose text is no JSON; with the parser's description.
    InvalidJson { detail: String, body: String },
}

/// A request as the user interface hands it over.
pub struct ApiRequest {
    pub url: String,
    pub method: String,
    pub headers: Vec<(String, String)>,
    pub body: serde_json::Value,
    pub proxy: Option<String>,
}

/// A request that passed the checks, ready to send.
pub struct PreparedRequest {
    pub url: String,
    pub method: HttpMethod,
    /// The headers that HTTP accepts, in input order.
    pub headers: Vec<(String, String)>,
    /// The headers that were left out, in input order.
    pub rejected_headers: Vec<(String, String)>,
    pub body: serde_json::Value,
    pub proxy: Option<String>,
}

/// Whether HTTP accepts the header `h`.
pub open spec fn header_ok(h: (String, String)) -> bool {
    header_name_ok(h.0@) && header_value_ok(h.1@)
}

/// The headers in `hs` that HTTP accepts (`keep`) or refuses, in order.
pub open spec fn headers_where(hs: Seq<(String, String)>, keep: bool) -> Seq<(String, String)>
    decreases hs.len(),
{
    if hs.len() == 0 {
        seq![]
    } else {
        let rest = headers_where(hs.drop_last(), keep);
        if header_ok(hs.last()) == keep {
            rest.push(hs.last())
        } else {
            rest
        }
    }
}

/// Splits the headers into those HTTP accepts and those it refuses, each in
/// input order.
pub fn split_headers(headers: Vec<(String, String)>) -> (r: (
    Vec<(String, String)>,
    Vec<(String, String)>,
))
    ensures
        r.0@ == headers_where(headers@, true),
        r.1@ == headers_where(headers@, false),
{
    let mut kept: Vec<(String, String)> = Vec::new();
    let mut rejected: Vec<(String, String)> = Vec::new();
    let mut rest = headers;
    let ghost all = rest@;
    let ghost n = all.len();
    while rest.len() > 0
        invariant
            n == all.len(),
            rest@.len() <= n,
            rest@ == all.subrange(n - rest@.len(), n as int),
            kept@ == headers_where(all.subrange(0, n - rest@.len()), true),
            rejected@ == headers_where(all.subrange(0, n - rest@.len()), false),
        decreases rest@.len(),
    {
        let ghost k = n - rest@.len();
        let h = rest.remove(0);
        assert(h == all[k]);
        assert(rest@ == all.subrange(k + 1, n as int));
        assert(all.subrange(0, k + 1).drop_last() == all.subrange(0, k));
        let ok = is_header_name(h.0.as_str()) && is_header_value(h.1.as_str());
        if ok {
            kept.push(h);
        } else {
            rejected.push(h);
        }
    }
    assert(all.subrange(0, n as int) == all);
    (kept, rejected)
}

/// What the proxy setting asks for, given what the URL parser made of it
/// (`scheme`: the scheme, or the parser's description of the failure).
pub fn proxy_decision(proxy: String, scheme: Result<String, String>) -> (r: Result<
    Option<String>,
    ApiError,
>)
    ensures
        match scheme {
            Err(e) => r == Err::<Option<String>, ApiError>(ApiError::ProxyUrl(e)),
            Ok(s) => if proxy_scheme_supported(s@) {
                r == Ok::<Option<String>, ApiError>(Some(proxy))
            } else {
                r == Err::<Option<String>, ApiError>(ApiError::UnsupportedProxy)
            },
        },
{
    match scheme {
        Err(e) => Err(ApiError::ProxyUrl(e)),
        Ok(s) => {
            if same_text(s.as_str(), "http") || same_text(s.as_str(), "https") || same_text(
                s.as_str(),
                "socks5",
            ) {
                Ok(Some(proxy))
            } else {
                Err(ApiError::UnsupportedProxy)
            }
        },
    }
}

/// Checks the proxy setting: no proxy, or a URL with a supported scheme.
pub fn check_proxy(proxy: Option<String>) -> (r: Result<Option<String>, ApiError>)
    ensures
        proxy is None ==> r == Ok::<Option<String>, ApiError>(None),
        proxy is Some ==> match url_scheme(proxy->0@) {
            None => r is Err && r->Err_0 is ProxyUrl,
            Some(s) => if proxy_scheme_supported(s) {
                r == Ok::<Option<String>, ApiError>(proxy)
            } else {
                r == Err::<Option<String>, ApiError>(ApiError::UnsupportedProxy)
            },
        },
{
    match proxy {
        None => Ok(None),
        Some(p) => {
            let scheme = parse_url_scheme(p.as_str());
            proxy_decision(p, scheme)
        },
    }
}

/// No proxy, or a URL whose scheme is supported.
pub open spec fn proxy_accepted(proxy: Option<String>) -> bool {
    match proxy {
        None => true,
        Some(p) => url_scheme(p@) is Some && proxy_scheme_supported(url_scheme(p@)->0),
    }
}

/// `q` is `request` made ready: the method read, the headers split.
pub open spec fn prepared_from(q: PreparedRequest, request: ApiRequest) -> bool {
    &&& q.url == request.url
    &&& q.method == method_named(request.method@)->0
    &&& q.headers@ == headers_where(request.headers@, true)
    &&& q.rejected_headers@ == headers_where(request.headers@, false)
    &&& q.body == request.body
    &&& q.proxy == request.proxy
}

/// Checks a request before any network call: the proxy first, then the
/// method; headers that HTTP refuses are set apart, not fatal.
pub fn prepare_request(request: ApiRequest) -> (r: Result<PreparedRequest, ApiError>)
    ensures
        request.proxy is Some && url_scheme(request.proxy->0@) is None ==> r is Err && r->Err_0 is ProxyUrl,
        request.proxy is Some && url_scheme(request.proxy->0@) is Some && !proxy_scheme_supported(
            url_scheme(request.proxy->0@)->0,
        ) ==> r == Err::<PreparedRequest, ApiError>(ApiError::UnsupportedProxy),
        proxy_accepted(request.proxy) && method_named(request.method@) is None ==> r == Err::<
            PreparedRequest,
            ApiError,
        >(ApiError::UnsupportedMethod(request.method)),
        proxy_accepted(request.proxy) && method_named(request.method@) is Some ==> (r is Ok
            && prepared_from(r->Ok_0, request)),
{
    let ApiRequest { url, method, headers, body, proxy } = request;
    let proxy = match check_proxy(proxy) {
        Ok(p) => p,
        Err(e) => {
            return Err(e);
        },
    };
    let m = match parse_method(method.as_str()) {
        Some(m) => m,
        None => {
            return Err(ApiError::UnsupportedMethod(method));
        },
    };
    let (kept, rejected) = split_headers(headers);
    Ok(PreparedRequest { url, method: m, headers: kept, rejected_headers: rejected, body, proxy })
}

/// Whether `status` is a success status (2xx).
pub open spec fn is_success_status(status: u16) -> bool {
    200 <= status <= 299
}

/// Judges a response, given what the JSON parser made of its text (`parsed`).
pub fn response_decision(status: u16, text: String, parsed: Result<serde_json::Value, String>) -> (r:
    Result<serde_json::Value, ApiError>)
    ensures
        !is_success_status(status) ==> r == Err::<serde_json::Value, ApiError>(
            ApiError::Status { status, body: text },
        ),
        is_success_status(status) ==> match parsed {
            Ok(v) => r == Ok::<serde_json::Value, ApiError>(v),
            Err(e) => r == Err::<serde_json::Value, ApiError>(
                ApiError::InvalidJson { detail: e, body: text },
            ),
        },
{
    if !(200 <= status && status <= 299) {
        return Err(ApiError::Status { status, body: text });
    }
    match parsed {
        Ok(v) => Ok(v),
        Err(e) => Err(ApiError::InvalidJson { detail: e, body: text }),
    }
}

/// Judges a response from its status and text: a 2xx status with JSON text
/// gives the parsed value.
pub fn read_response(status: u16, text: String) -> (r: Result<serde_json::Value, ApiError>)
    ensures
        !is_success_status(status) ==> r == Err::<serde_json::Value, ApiError>(
            ApiError::Status { status, body: text },
        ),
        is_success_status(status) ==> (r is Ok <==> json_text_valid(text@)),
        is_success_status(status) && r is Err ==> (r->Err_0 matches ApiError::InvalidJson {
            body,
            ..
        } && body == text),
{
    if !(200 <= status && status <= 299) {
        return Err(ApiError::Status { status, body: text });
    }
    let parsed = parse_json(text.as_str());
    response_decision(status, text, parsed)
}

/// `what: detail`.
pub open spec fn described(what: Seq<char>, detail: Seq<char>) -> Seq<char> {
    what + ": "@ + detail
}

/// The message that reports `e`.
pub open spec fn api_message(e: ApiError) -> Seq<char> {
    match e {
        ApiError::ProxyUrl(d) => described("failed to parse the proxy URL"@, d@),
        ApiError::UnsupportedProxy => "unsupported proxy protocol"@,
        ApiError::ProxySetup(d) => described("failed to set the proxy"@, d@),
        ApiError::Client(d) => described("failed to build the HTTP client"@, d@),
        ApiError::UnsupportedMethod(m) => described("unsupported HTTP method"@, m@),
        ApiError::Send(d) => described("failed to send the HTTP request"@, d@),
        ApiError::Status { status, body } => "API request failed, status: "@ + decimal(
            status as nat,
        ) + ", response: "@ + body@,
        ApiError::InvalidJson { detail, body } => described(
            "failed to parse the JSON response"@,
            detail@,
        ) + " - response: "@ + body@,
    }
}

fn describe(what: &str, detail: &String) -> (r: String)
    ensures
        r@ == described(what@, detail@),
{
    let head = join_text(what, ": ");
    join_text(head.as_str(), detail.as_str())
}

impl ApiError {
    /// A human-readable message; a failed status carries the code and the
    /// response text.
    pub fn message(&self) -> (r: String)
        ensures
            r@ == api_message(*self),
    {
        match self {
            ApiError::ProxyUrl(d) => describe("failed to parse the proxy URL", d),
            ApiError::UnsupportedProxy => String::from_str("unsupported proxy protocol"),
            ApiError::ProxySetup(d) => describe("failed to set the proxy", d),
            ApiError::Client(d) => describe("failed to build the HTTP client", d),
            ApiError::UnsupportedMethod(m) => describe("unsupported HTTP method", m),
            ApiError::Send(d) => describe("failed to send the HTTP request", d),
            ApiError::Status { status, body } => {
                let code = decimal_text(*status as u64);
                let a = join_text("API request failed, status: ", code.as_str());
                let b = join_text(a.as_str(), ", response: ");
                join_text(b.as_str(), body.as_str())
            },
            ApiError::InvalidJson { detail, body } => {
                let a = describe("failed to parse the JSON response", detail);
                let b = join_text(a.as_str(), " - response: ");
                join_text(b.as_str(), body.as_str())
            },
        }
    }
}

} // verus!
