//! The `tauri-plugin-decoration` URI scheme, which serves the control
//! stylesheet and nothing else.

use crate::text::str_eq;
use crate::tokens::{decimal, decimal_string};
use vstd::prelude::*;

verus! {

/// The scheme the stylesheet is served under.
pub const SCHEME: &'static str = "tauri-plugin-decoration";

/// The only path the scheme serves.
pub const STYLESHEET_PATH: &'static str = "/controls.css";

/// The request method, as far as routing cares.
#[derive(Clone, Copy, Debug, Eq, PartialEq, Structural)]
pub enum Method {
    Get,
    Head,
    Other,
}

/// The parts of a request that routing reads.
#[derive(Clone, Debug, Eq, PartialEq)]
pub struct ProtocolRequest {
    pub method: Method,
    /// The URI scheme.
    pub scheme: Option<String>,
    /// The URI authority, user information and port included.
    pub authority: Option<String>,
    /// The URI path with its query, if any.
    pub path_and_query: Option<String>,
}

/// What the response body holds.
#[derive(Clone, Copy, Debug, Eq, PartialEq, Structural)]
pub enum Body {
    /// The bytes of the stylesheet.
    Stylesheet,
    /// Nothing.
    Empty,
    /// The UTF-8 bytes of `Not Found`.
    NotFound,
    /// The UTF-8 bytes of `Method Not Allowed`.
    MethodNotAllowed,
}

pub open spec fn body_text(body: Body) -> Option<Seq<char>> {
    match body {
        Body::NotFound => Some("Not Found"@),
        Body::MethodNotAllowed => Some("Method Not Allowed"@),
        _ => None,
    }
}

impl Body {
    /// The message a plain-text body holds.
    pub fn text(self) -> (r: Option<&'static str>)
        ensures
            match (r, body_text(self)) {
                (Some(t), Some(u)) => t@ == u,
                (None, None) => true,
                _ => false,
            },
    {
        match self {
            Body::NotFound => Some("Not Found"),
            Body::MethodNotAllowed => Some("Method Not Allowed"),
            _ => None,
        }
    }
}

/// A response: status, headers in insertion order, and body.
#[derive(Clone, Debug, Eq, PartialEq)]
pub struct ProtocolResponse {
    pub status: u16,
    pub headers: Vec<(&'static str, String)>,
    pub body: Body,
}

pub open spec fn option_view(o: Option<String>) -> Option<Seq<char>> {
    match o {
        Some(s) => Some(s@),
        None => None,
    }
}

/// Whether the request addresses exactly the stylesheet: the decoration
/// scheme, the bare `localhost` authority, and the stylesheet path without
/// a query.
pub open spec fn is_stylesheet_request(request: ProtocolRequest) -> bool {
    &&& option_view(request.scheme) == Some("tauri-plugin-decoration"@)
    &&& option_view(request.authority) == Some("localhost"@)
    &&& option_view(request.path_and_query) == Some("/controls.css"@)
}

pub open spec fn header_views(headers: Seq<(&'static str, String)>) -> Seq<(Seq<char>, Seq<char>)> {
    headers.map_values(|h: (&'static str, String)| (h.0@, h.1@))
}

/// The headers every response carries after its content type.
pub open spec fn common_headers() -> Seq<(Seq<char>, Seq<char>)> {
    seq![("x-content-type-options"@, "nosniff"@), ("cache-control"@, "no-store"@)]
}

/// The headers of a stylesheet response for a stylesheet of `length` bytes.
pub open spec fn stylesheet_headers(length: u64) -> Seq<(Seq<char>, Seq<char>)> {
    seq![("content-type"@, "text/css; charset=utf-8"@)] + common_headers() + seq![
        ("cross-origin-resource-policy"@, "cross-origin"@),
        ("content-length"@, decimal(length as nat)),
    ]
}

/// The headers of a plain-text response, with an `allow` header if given.
pub open spec fn plain_headers(allow: Option<Seq<char>>) -> Seq<(Seq<char>, Seq<char>)> {
    seq![("content-type"@, "text/plain; charset=utf-8"@)] + common_headers() + match allow {
        Some(a) => seq![("allow"@, a)],
        None => Seq::empty(),
    }
}

/// The response to `request` when the stylesheet is `length` bytes long:
/// anything but the stylesheet URI is not found; on it, `GET` gets the
/// stylesheet, `HEAD` the same headers without a body, and other methods
/// are refused with the allowed ones listed.
pub open spec fn response_for(request: ProtocolRequest, length: u64) -> (
    u16,
    Seq<(Seq<char>, Seq<char>)>,
    Body,
) {
    if !is_stylesheet_request(request) {
        (404, plain_headers(None), Body::NotFound)
    } else {
        match request.method {
            Method::Get => (200, stylesheet_headers(length), Body::Stylesheet),
            Method::Head => (200, stylesheet_headers(length), Body::Empty),
            Method::Other => (
                405,
                plain_headers(Some("GET, HEAD"@)),
                Body::MethodNotAllowed,
            ),
        }
    }
}

fn option_is(value: &Option<String>, expected: &str) -> (r: bool)
    ensures
        r == (option_view(*value) == Some(expected@)),
{
    match value {
        Some(v) => str_eq(v.as_str(), expected),
        None => false,
    }
}

/// Whether the request addresses exactly the stylesheet.
pub fn is_stylesheet_route(request: &ProtocolRequest) -> (r: bool)
    ensures
        r == is_stylesheet_request(*request),
{
    option_is(&request.scheme, "tauri-plugin-decoration") && option_is(
        &request.authority,
        "localhost",
    ) && option_is(&request.path_and_query, "/controls.css")
}

proof fn lemma_header_views_push(s: Seq<(&'static str, String)>, h: (&'static str, String))
    ensures
        header_views(s.push(h)) == header_views(s).push((h.0@, h.1@)),
{
    assert(header_views(s.push(h)) =~= header_views(s).push((h.0@, h.1@)));
}

fn header(name: &'static str, value: &str) -> (r: (&'static str, String))
    ensures
        r.0 == name,
        r.1@ == value@,
{
    (name, String::from_str(value))
}

fn push_common_headers(headers: &mut Vec<(&'static str, String)>)
    ensures
        header_views(final(headers)@) == header_views(old(headers)@) + common_headers(),
{
    let ghost before = headers@;
    let first = header("x-content-type-options", "nosniff");
    let ghost h1 = first;
    headers.push(first);
    let second = header("cache-control", "no-store");
    let ghost h2 = second;
    headers.push(second);
    proof {
        lemma_header_views_push(before, h1);
        lemma_header_views_push(before.push(h1), h2);
    }
    proof {
        reveal_strlit("x-content-type-options");
        reveal_strlit("nosniff");
        reveal_strlit("cache-control");
        reveal_strlit("no-store");
    }
    assert(header_views(headers@) =~= header_views(before) + common_headers());
}

/// The response serving the stylesheet of `length` bytes.
pub fn stylesheet_response(body: Body, length: u64) -> (r: ProtocolResponse)
    ensures
        r.status == 200,
        header_views(r.headers@) == stylesheet_headers(length),
        r.body == body,
{
    let mut headers: Vec<(&'static str, String)> = Vec::new();
    let first = header("content-type", "text/css; charset=utf-8");
    let ghost h0 = first;
    headers.push(first);
    proof {
        lemma_header_views_push(Seq::empty(), h0);
        assert(Seq::<(&'static str, String)>::empty().push(h0) == headers@);
    }
    push_common_headers(&mut headers);
    let ghost before = headers@;
    let corp = header("cross-origin-resource-policy", "cross-origin");
    let ghost h3 = corp;
    headers.push(corp);
    let length_text = decimal_string(length);
    let last = ("content-length", length_text);
    let ghost h4 = last;
    headers.push(last);
    proof {
        lemma_header_views_push(before, h3);
        lemma_header_views_push(before.push(h3), h4);
    }
    proof {
        reveal_strlit("content-type");
        reveal_strlit("text/css; charset=utf-8");
        reveal_strlit("cross-origin-resource-policy");
        reveal_strlit("cross-origin");
        reveal_strlit("content-length");
    }
    assert(header_views(headers@) =~= stylesheet_headers(length));
    ProtocolResponse { status: 200, headers, body }
}

/// A plain-text response with `status` and, if given, an `allow` header.
pub fn plain_response(status: u16, body: Body, allow: Option<&'static str>) -> (r:
    ProtocolResponse)
    ensures
        r.status == status,
        header_views(r.headers@) == plain_headers(
            match allow {
                Some(a) => Some(a@),
                None => None,
            },
        ),
        r.body == body,
{
    let mut headers: Vec<(&'static str, String)> = Vec::new();
    let first = header("content-type", "text/plain; charset=utf-8");
    let ghost h0 = first;
    headers.push(first);
    proof {
        lemma_header_views_push(Seq::empty(), h0);
        assert(Seq::<(&'static str, String)>::empty().push(h0) == headers@);
    }
    push_common_headers(&mut headers);
    let ghost before = headers@;
    match allow {
        Some(allow) => {
            let extra = header("allow", allow);
            let ghost h3 = extra;
            headers.push(extra);
            proof {
                lemma_header_views_push(before, h3);
            }
        },
        None => {},
    }
    proof {
        reveal_strlit("content-type");
        reveal_strlit("text/plain; charset=utf-8");
        reveal_strlit("allow");
    }
    assert(header_views(headers@) =~= plain_headers(
        match allow {
            Some(a) => Some(a@),
            None => None,
        },
    ));
    ProtocolResponse { status, headers, body }
}

/// The response to `request` when the stylesheet is `length` bytes long,
/// as `response_for` says.
pub fn handle(request: &ProtocolRequest, length: u64) -> (r: ProtocolResponse)
    ensures
        (r.status, header_views(r.headers@), r.body) == response_for(*request, length),
{
    if !is_stylesheet_route(request) {
        return plain_response(404, Body::NotFound, None);
    }
    match request.method {
        Method::Get => stylesheet_response(Body::Stylesheet, length),
        Method::Head => stylesheet_response(Body::Empty, length),
        Method::Other => {
            proof {
                reveal_strlit("GET, HEAD");
            }
            plain_response(405, Body::MethodNotAllowed, Some("GET, HEAD"))
        },
    }
}

} // verus!
