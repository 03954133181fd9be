//! Turning an intercepted request into one the HTTP client can send: the
//! method is upper-cased and checked, each header name and value is checked.

use vstd::prelude::*;
use vstd::string::*;
use vstd::utf8::*;
use crate::error::CheapApiError;
use crate::hasher::{ascii_upper, push_ascii_upper};
use crate::headers::{Headers, names_distinct, pairs_map};
use crate::interceptor::InterceptRequest;

verus! {

/// A token character of HTTP (RFC 9110): a letter, a digit, or one of
/// ``!#$%&'*+-.^_`|~``.
pub open spec fn is_token_byte(b: u8) -> bool {
    ||| 48 <= b <= 57
    ||| 65 <= b <= 90
    ||| 97 <= b <= 122
    ||| b == 33 || b == 35 || b == 36 || b == 37 || b == 38 || b == 39
    ||| b == 42 || b == 43 || b == 45 || b == 46
    ||| b == 94 || b == 95 || b == 96 || b == 124 || b == 126
}

/// The bytes that `Method::from_bytes` accepts: at least one, all tokens.
pub open spec fn method_bytes_valid(b: Seq<u8>) -> bool {
    &&& b.len() > 0
    &&& forall|i: int| 0 <= i < b.len() ==> is_token_byte(#[trigger] b[i])
}

/// The bytes that `HeaderName::from_bytes` accepts: one to 65535 of them,
/// all tokens.
pub open spec fn header_name_bytes_valid(b: Seq<u8>) -> bool {
    &&& 0 < b.len() <= 65535
    &&& forall|i: int| 0 <= i < b.len() ==> is_token_byte(#[trigger] b[i])
}

/// A byte that `HeaderValue::from_str` accepts: a tab or any byte from 32 up
/// but 127.
pub open spec fn is_header_value_byte(b: u8) -> bool {
    (b >= 32 && b != 127) || b == 9
}

/// The bytes that `HeaderValue::from_str` accepts.
pub open spec fn header_value_bytes_valid(b: Seq<u8>) -> bool {
    forall|i: int| 0 <= i < b.len() ==> is_header_value_byte(#[trigger] b[i])
}

/// The text of `InvalidHeaderName`.
pub open spec fn invalid_header_name_text() -> Seq<char> {
    seq!['i', 'n', 'v', 'a', 'l', 'i', 'd', ' ', 'H', 'T', 'T', 'P', ' ', 'h', 'e', 'a', 'd', 'e', 'r', ' ', 'n', 'a', 'm', 'e']
}

/// The text of `InvalidHeaderValue`.
pub open spec fn invalid_header_value_text() -> Seq<char> {
    seq!['f', 'a', 'i', 'l', 'e', 'd', ' ', 't', 'o', ' ', 'p', 'a', 'r', 's', 'e', ' ', 'h', 'e', 'a', 'd', 'e', 'r', ' ', 'v', 'a', 'l', 'u', 'e']
}

/// The text that starts the error of an invalid method.
pub open spec fn invalid_method_prefix() -> Seq<char> {
    seq!['i', 'n', 'v', 'a', 'l', 'i', 'd', ' ', 'H', 'T', 'T', 'P', ' ', 'm', 'e', 't', 'h', 'o', 'd', ':', ' ']
}

/// Calls `reqwest::Method::from_bytes` and tells whether it accepted the
/// bytes: it accepts a non-empty run of token bytes and refuses anything else.
#[verifier::external_body]
fn method_accepts(src: &[u8]) -> (ok: bool)
    ensures
        ok <==> method_bytes_valid(src@),
{
    reqwest::Method::from_bytes(src).is_ok()
}

/// Calls `HeaderName::from_bytes` and tells whether it accepted the bytes:
/// it accepts one to 65535 token bytes; its error reads "invalid HTTP header
/// name".
#[verifier::external_body]
fn check_header_name(src: &[u8]) -> (r: Result<(), String>)
    ensures
        r is Ok <==> header_name_bytes_valid(src@),
        r matches Err(t) ==> t@ == invalid_header_name_text(),
{
    reqwest::header::HeaderName::from_bytes(src).map(|_| ()).map_err(|e| e.to_string())
}

/// Calls `HeaderValue::from_str` and tells whether it accepted the text: it
/// accepts the text when each of its bytes is a tab or at least 32 and not
/// 127; its error reads "failed to parse header value".
#[verifier::external_body]
fn check_header_value(src: &str) -> (r: Result<(), String>)
    ensures
        r is Ok <==> header_value_bytes_valid(src.spec_bytes()),
        r matches Err(t) ==> t@ == invalid_header_value_text(),
{
    reqwest::header::HeaderValue::from_str(src).map(|_| ()).map_err(|e| e.to_string())
}

/// A checked request, ready to be handed to the HTTP client.
#[derive(Debug)]
pub struct UpstreamRequest {
    /// The method, upper-cased: a valid HTTP method.
    pub method: Vec<u8>,
    pub url: String,
    /// The (name, value) pairs of the request's headers, in order, each of
    /// them valid.
    pub headers: Vec<(String, String)>,
    /// The body, attached only when it is not empty.
    pub body: Option<String>,
}

/// The error text for the first header, from `s[0]` on, whose name or value
/// cannot be sent (a bad name is reported before a bad value).
pub open spec fn header_error(s: Seq<(String, String)>) -> Option<Seq<char>>
    decreases s.len(),
{
    if s.len() == 0 {
        None
    } else if !header_name_bytes_valid(encode_utf8(s[0].0@)) {
        Some(invalid_header_name_text())
    } else if !header_value_bytes_valid(encode_utf8(s[0].1@)) {
        Some(invalid_header_value_text())
    } else {
        header_error(s.drop_first())
    }
}

/// What preparing `req` gives: with a method that is invalid once upper-cased,
/// `Config("invalid HTTP method: <method>")`; else, with a header that cannot
/// be sent, `Encoding(<its error text>)` for the first one; else the request,
/// with the upper-cased method, the URL, every header pair in order, and the
/// body when not empty.
pub open spec fn prepared_as(req: InterceptRequest, r: Result<UpstreamRequest, CheapApiError>) -> bool {
    if !method_bytes_valid(ascii_upper(encode_utf8(req.method@))) {
        r matches Err(CheapApiError::Config(t)) && t@ == invalid_method_prefix() + req.method@
    } else {
        match header_error(req.headers.entries_view()) {
            Some(text) => r matches Err(CheapApiError::Encoding(t)) && t@ == text,
            None => r matches Ok(u) && u.method@ == ascii_upper(encode_utf8(req.method@))
                && u.url@ == req.url@ && u.headers@ == req.headers.entries_view() && (if req.body@.len() == 0 {
                u.body is None
            } else {
                u.body matches Some(b) && b@ == req.body@
            }),
        }
    }
}

/// A prepared request goes where the intercepted one was going, as it was:
/// its URL is the request's URL character for character (query included),
/// its method the request's method upper-cased, its headers the request's
/// pairs in order, and its body the request's body when that is not empty.
pub proof fn lemma_prepared_request_is_faithful(req: InterceptRequest, u: UpstreamRequest)
    requires
        prepared_as(req, Ok(u)),
    ensures
        u.url@ == req.url@,
        u.method@ == ascii_upper(encode_utf8(req.method@)),
        u.headers@ == req.headers.entries_view(),
        req.body@.len() == 0 ==> u.body is None,
        req.body@.len() > 0 ==> (u.body matches Some(b) && b@ == req.body@),
{
}

/// Prepares a request for the upstream API: the method, upper-cased, must be
/// a valid HTTP method, and every header name and value must be sendable. The
/// method is checked first, then the headers in order; the first failure is
/// the error: `Config("invalid HTTP method: <method>")` or
/// `Encoding(<the text of the header error>)`.
pub fn prepare_upstream(req: &InterceptRequest) -> (r: Result<UpstreamRequest, CheapApiError>)
    ensures
        prepared_as(*req, r),
{
    let mut upper: Vec<u8> = Vec::new();
    push_ascii_upper(&mut upper, req.method.as_str().as_bytes());
    assert(upper@ =~= ascii_upper(encode_utf8(req.method@)));
    if !method_accepts(upper.as_slice()) {
        let mut text = String::from_str("invalid HTTP method: ");
        text.append(req.method.as_str());
        proof {
            reveal_strlit("invalid HTTP method: ");
            assert(text@ =~= invalid_method_prefix() + req.method@);
        }
        return Err(CheapApiError::Config(text));
    }
    let pairs = req.headers.pairs();
    let n = pairs.len();
    let mut headers: Vec<(String, String)> = Vec::new();
    let mut i: usize = 0;
    assert(pairs@.skip(0) =~= pairs@);
    while i < n
        invariant
            n == pairs@.len(),
            pairs@ == req.headers.entries_view(),
            method_bytes_valid(ascii_upper(encode_utf8(req.method@))),
            0 <= i <= n,
            headers@ == pairs@.subrange(0, i as int),
            header_error(pairs@) == header_error(pairs@.skip(i as int)),
        decreases n - i,
    {
        assert(pairs@.skip(i as int).drop_first() =~= pairs@.skip(i + 1));
        if let Err(text) = check_header_name(pairs[i].0.as_str().as_bytes()) {
            return Err(CheapApiError::Encoding(text));
        }
        if let Err(text) = check_header_value(pairs[i].1.as_str()) {
            return Err(CheapApiError::Encoding(text));
        }
        headers.push((pairs[i].0.clone(), pairs[i].1.clone()));
        i = i + 1;
        assert(headers@ =~= pairs@.subrange(0, i as int));
    }
    assert(headers@ =~= pairs@);
    assert(pairs@.skip(n as int) =~= Seq::<(String, String)>::empty());
    let body = if req.body.as_str().is_empty() {
        None
    } else {
        Some(req.body.clone())
    };
    Ok(UpstreamRequest { method: upper, url: req.url.clone(), headers, body })
}

} // verus!
