//! Request model and attribute collection: the standardized set of span
//! attributes derived from an inbound request, including client-IP
//! resolution from forwarding headers.
use vstd::prelude::*;

use crate::attrs::{attrs_set, AttrV, AttrValue, AttributeSet};
use crate::headers::{spec_header_get, HeaderExtractor};
use crate::text::{find_char, idx_of, lemma_idx_of, str_eq, trim_s, trim_str};

verus! {

/// An HTTP request method.
#[derive(Debug, PartialEq, Eq)]
pub enum Method {
    Options,
    Get,
    Post,
    Put,
    Delete,
    Head,
    Trace,
    Connect,
    Patch,
    Other(String),
}

/// An HTTP protocol version.
#[derive(Clone, Copy, Debug, PartialEq, Eq, Structural)]
pub enum HttpVersion {
    V09,
    V10,
    V11,
    V2,
    V3,
    VOther,
}

/// The transport-layer peer address, as plain values.
pub struct PeerAddr {
    pub ip: String,
    pub port: Option<u16>,
}

/// Everything the middleware reads from an inbound request, as plain values.
pub struct RequestInfo {
    pub method: Method,
    /// Path plus query string, if present.
    pub target: Option<String>,
    pub version: HttpVersion,
    /// The scheme of the request's own URI, if present.
    pub scheme: Option<String>,
    /// The host component of the request's URI, if present.
    pub uri_host: Option<String>,
    pub headers: HeaderExtractor,
    pub peer: Option<PeerAddr>,
    /// The matched route pattern, when route matching has already occurred.
    pub route: Option<String>,
}

/// The method as an upper-case token.
pub open spec fn spec_method_str(m: Method) -> Seq<char> {
    match m {
        Method::Options => "OPTIONS"@,
        Method::Get => "GET"@,
        Method::Post => "POST"@,
        Method::Put => "PUT"@,
        Method::Delete => "DELETE"@,
        Method::Head => "HEAD"@,
        Method::Trace => "TRACE"@,
        Method::Connect => "CONNECT"@,
        Method::Patch => "PATCH"@,
        Method::Other(s) => s@,
    }
}

/// The method as an upper-case token.
pub fn http_method_str(m: &Method) -> (r: String)
    ensures
        r@ == spec_method_str(*m),
{
    match m {
        Method::Options => String::from_str("OPTIONS"),
        Method::Get => String::from_str("GET"),
        Method::Post => String::from_str("POST"),
        Method::Put => String::from_str("PUT"),
        Method::Delete => String::from_str("DELETE"),
        Method::Head => String::from_str("HEAD"),
        Method::Trace => String::from_str("TRACE"),
        Method::Connect => String::from_str("CONNECT"),
        Method::Patch => String::from_str("PATCH"),
        Method::Other(s) => s.clone(),
    }
}

/// The protocol version as a short token.
pub open spec fn spec_flavor_str(v: HttpVersion) -> Seq<char> {
    match v {
        HttpVersion::V09 => "0.9"@,
        HttpVersion::V10 => "1.0"@,
        HttpVersion::V11 => "1.1"@,
        HttpVersion::V2 => "2.0"@,
        HttpVersion::V3 => "3.0"@,
        HttpVersion::VOther => "unknown"@,
    }
}

/// The protocol version as a short token.
pub fn http_flavor(v: HttpVersion) -> (r: String)
    ensures
        r@ == spec_flavor_str(v),
{
    match v {
        HttpVersion::V09 => String::from_str("0.9"),
        HttpVersion::V10 => String::from_str("1.0"),
        HttpVersion::V11 => String::from_str("1.1"),
        HttpVersion::V2 => String::from_str("2.0"),
        HttpVersion::V3 => String::from_str("3.0"),
        HttpVersion::VOther => String::from_str("unknown"),
    }
}

/// Normalizes a scheme token; the value is returned unchanged.
pub fn http_scheme(s: &str) -> (r: String)
    ensures
        r@ == s@,
{
    if str_eq(s, "http") {
        String::from_str("http")
    } else if str_eq(s, "https") {
        String::from_str("https")
    } else {
        s.to_owned()
    }
}

/// The span name: `"<METHOD> <route>"`, or the method alone while no route
/// has been matched.
pub open spec fn spec_span_name(m: Seq<char>, route: Option<Seq<char>>) -> Seq<char> {
    match route {
        Some(r) => m + " "@ + r,
        None => m,
    }
}

/// Derives the span name from the method and the matched route, if any.
pub fn span_name(method: &Method, route: &Option<String>) -> (r: String)
    ensures
        r@ == spec_span_name(
            spec_method_str(*method),
            match route {
                Some(rt) => Some(rt@),
                None => None,
            },
        ),
{
    let m = http_method_str(method);
    match route {
        Some(rt) => m.concat(" ").concat(rt.as_str()),
        None => m,
    }
}

/// The first comma-separated entry of an `X-Forwarded-For` value, trimmed.
pub open spec fn spec_xff_entry(v: Seq<char>) -> Seq<char> {
    trim_s(v.subrange(0, idx_of(v, ',')))
}

/// Trims and extracts the first comma-separated entry.
pub fn xff_entry(v: &str) -> (r: String)
    ensures
        r@ == spec_xff_entry(v@),
{
    let e = find_char(v, ',');
    proof {
        lemma_idx_of(v@, ',');
    }
    let first = v.substring_char(0, e);
    trim_str(first)
}

/// The `for=` value of one semicolon-separated `Forwarded` parameter: the
/// parameter is trimmed, split at the first `=`, and its key must be `for`.
pub open spec fn spec_fwd_part_for(p: Seq<char>) -> Option<Seq<char>> {
    let t = trim_s(p);
    let e = idx_of(t, '=');
    if e < t.len() && t.subrange(0, e) == "for"@ {
        Some(t.subrange(e + 1, t.len() as int))
    } else {
        None
    }
}

/// The first `for=` parameter of a `Forwarded` header value, if any.
pub open spec fn spec_fwd_for(v: Seq<char>) -> Option<Seq<char>>
    decreases v.len(),
    via spec_fwd_for_dec
{
    let e = idx_of(v, ';');
    match spec_fwd_part_for(v.subrange(0, e)) {
        Some(x) => Some(x),
        None => if e < v.len() {
            spec_fwd_for(v.subrange(e + 1, v.len() as int))
        } else {
            None
        },
    }
}

#[via_fn]
proof fn spec_fwd_for_dec(v: Seq<char>) {
    lemma_idx_of(v, ';');
}

fn fwd_part_for(p: &str) -> (r: Option<String>)
    ensures
        r is Some <==> spec_fwd_part_for(p@) is Some,
        r matches Some(x) ==> spec_fwd_part_for(p@) == Some(x@),
{
    let t = trim_str(p);
    let ts = t.as_str();
    let n = ts.unicode_len();
    let e = find_char(ts, '=');
    proof {
        lemma_idx_of(t@, '=');
    }
    if e < n {
        let keypart = ts.substring_char(0, e);
        if str_eq(keypart, "for") {
            return Some(ts.substring_char(e + 1, n).to_owned());
        }
    }
    None
}

/// Finds the first `for=` parameter of a `Forwarded` header value.
pub fn fwd_for(v: &str) -> (r: Option<String>)
    ensures
        r is Some <==> spec_fwd_for(v@) is Some,
        r matches Some(x) ==> spec_fwd_for(v@) == Some(x@),
    decreases v@.len(),
{
    let n = v.unicode_len();
    let e = find_char(v, ';');
    proof {
        lemma_idx_of(v@, ';');
    }
    let part = v.substring_char(0, e);
    match fwd_part_for(part) {
        Some(x) => Some(x),
        None => {
            if e < n {
                let rest = v.substring_char(e + 1, n);
                fwd_for(rest)
            } else {
                None
            }
        },
    }
}

/// The transport peer's address, when one is available.
pub open spec fn spec_peer_ip(peer: Option<PeerAddr>) -> Option<Seq<char>> {
    match peer {
        Some(p) => Some(p.ip@),
        None => None,
    }
}

/// Client-IP resolution: the first `X-Forwarded-For` entry wins, then a
/// `for=` parameter of a `Forwarded` header, then the transport peer address.
pub open spec fn spec_client_ip(
    hs: Seq<(Seq<char>, Seq<char>)>,
    peer: Option<PeerAddr>,
) -> Option<Seq<char>> {
    match spec_header_get(hs, "x-forwarded-for"@) {
        Some(v) => Some(spec_xff_entry(v)),
        None => match spec_header_get(hs, "forwarded"@) {
            Some(v) => match spec_fwd_for(v) {
                Some(x) => Some(x),
                None => spec_peer_ip(peer),
            },
            None => spec_peer_ip(peer),
        },
    }
}

/// Client-IP precedence: whenever an `X-Forwarded-For` header is present,
/// its first entry is the resolved client IP — it wins over a `Forwarded`
/// header and over any transport-layer peer address.
pub proof fn lemma_client_ip_precedence(
    hs: Seq<(Seq<char>, Seq<char>)>,
    peer: Option<PeerAddr>,
    v: Seq<char>,
)
    requires
        spec_header_get(hs, "x-forwarded-for"@) == Some(v),
    ensures
        spec_client_ip(hs, peer) == Some(spec_xff_entry(v)),
{
}

/// Resolves the client IP from forwarding headers, falling back to the
/// transport peer address.
pub fn resolve_client_ip(headers: &HeaderExtractor, peer: &Option<PeerAddr>) -> (r: Option<String>)
    ensures
        r is Some <==> spec_client_ip(headers@, *peer) is Some,
        r matches Some(x) ==> spec_client_ip(headers@, *peer) == Some(x@),
{
    match headers.get("x-forwarded-for") {
        Some(v) => Some(xff_entry(v.as_str())),
        None => {
            let from_fwd = match headers.get("forwarded") {
                Some(v) => fwd_for(v.as_str()),
                None => None,
            };
            match from_fwd {
                Some(x) => Some(x),
                None => match peer {
                    Some(p) => Some(p.ip.clone()),
                    None => None,
                },
            }
        },
    }
}

/// The `http.scheme` value: a forwarded-proto header wins over the request's
/// own scheme, defaulting to `http`.
pub open spec fn spec_scheme_value(req: RequestInfo) -> Seq<char> {
    match spec_header_get(req.headers@, "x-forwarded-proto"@) {
        Some(v) => v,
        None => match req.scheme {
            Some(s) => s@,
            None => "http"@,
        },
    }
}

/// The standardized attribute set derived from a request, in insertion
/// order: method, target, kind, flavor, scheme, host, user agent, client IP
/// under both `net.peer.ip` and `http.client_ip`, the transport peer port,
/// and the matched route when known.
pub open spec fn spec_collect(req: RequestInfo) -> Seq<(Seq<char>, AttrV)> {
    let e = Seq::<(Seq<char>, AttrV)>::empty();
    let a1 = attrs_set(e, "http.method"@, AttrV::Str(spec_method_str(req.method)));
    let a2 = match req.target {
        Some(t) => attrs_set(a1, "http.target"@, AttrV::Str(t@)),
        None => a1,
    };
    let a3 = attrs_set(a2, "otel.kind"@, AttrV::Str("server"@));
    let a4 = attrs_set(a3, "http.flavor"@, AttrV::Str(spec_flavor_str(req.version)));
    let a5 = attrs_set(a4, "http.scheme"@, AttrV::Str(spec_scheme_value(req)));
    let a6 = match spec_header_get(req.headers@, "host"@) {
        Some(h) => attrs_set(a5, "http.host"@, AttrV::Str(h)),
        None => match req.uri_host {
            Some(h) => attrs_set(a5, "http.host"@, AttrV::Str(h@)),
            None => a5,
        },
    };
    let a7 = match spec_header_get(req.headers@, "user-agent"@) {
        Some(u) => attrs_set(a6, "http.user_agent"@, AttrV::Str(u)),
        None => a6,
    };
    let a8 = match spec_client_ip(req.headers@, req.peer) {
        Some(ip) => attrs_set(
            attrs_set(a7, "net.peer.ip"@, AttrV::Str(ip)),
            "http.client_ip"@,
            AttrV::Str(ip),
        ),
        None => a7,
    };
    let a9 = match req.peer {
        Some(p) => match p.port {
            Some(pt) => attrs_set(a8, "net.peer.port"@, AttrV::Int(pt as u64)),
            None => a8,
        },
        None => a8,
    };
    match req.route {
        Some(rt) => attrs_set(a9, "http.route"@, AttrV::Str(rt@)),
        None => a9,
    }
}

/// Builds the standardized attribute set for a request.
pub fn collect_attributes(req: &RequestInfo) -> (r: AttributeSet)
    ensures
        r.wf(),
        r@ == spec_collect(*req),
{
    let mut a = AttributeSet::new();
    a.set(String::from_str("http.method"), AttrValue::Str(http_method_str(&req.method)));
    match &req.target {
        Some(t) => a.set(String::from_str("http.target"), AttrValue::Str(t.clone())),
        None => (),
    }
    a.set(String::from_str("otel.kind"), AttrValue::Str(String::from_str("server")));
    a.set(String::from_str("http.flavor"), AttrValue::Str(http_flavor(req.version)));
    let scheme = match req.headers.get("x-forwarded-proto") {
        Some(v) => v.clone(),
        None => match &req.scheme {
            Some(s) => http_scheme(s.as_str()),
            None => String::from_str("http"),
        },
    };
    a.set(String::from_str("http.scheme"), AttrValue::Str(scheme));
    match req.headers.get("host") {
        Some(h) => a.set(String::from_str("http.host"), AttrValue::Str(h.clone())),
        None => match &req.uri_host {
            Some(h) => a.set(String::from_str("http.host"), AttrValue::Str(h.clone())),
            None => (),
        },
    }
    match req.headers.get("user-agent") {
        Some(u) => a.set(String::from_str("http.user_agent"), AttrValue::Str(u.clone())),
        None => (),
    }
    match resolve_client_ip(&req.headers, &req.peer) {
        Some(ip) => {
            a.set(String::from_str("net.peer.ip"), AttrValue::Str(ip.clone()));
            a.set(String::from_str("http.client_ip"), AttrValue::Str(ip));
        },
        None => (),
    }
    match &req.peer {
        Some(p) => match p.port {
            Some(pt) => a.set(String::from_str("net.peer.port"), AttrValue::Int(pt as u64)),
            None => (),
        },
        None => (),
    }
    match &req.route {
        Some(rt) => a.set(String::from_str("http.route"), AttrValue::Str(rt.clone())),
        None => (),
    }
    a
}

} // verus!
