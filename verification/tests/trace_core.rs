use axum_otel::attrs::AttrValue;
use axum_otel::headers::HeaderExtractor;
use axum_otel::middleware::{
    init_otel_layer, set_otel_parent, AxumOtelSpanLayer, OtelLayer, OtelService, Outcome,
};
use axum_otel::request::{HttpVersion, Method, PeerAddr, RequestInfo};
use axum_otel::span::{Span, SpanState, SpanStatus};

fn headers_of(pairs: &[(&str, &str)]) -> HeaderExtractor {
    let mut h = HeaderExtractor::new();
    for (k, v) in pairs {
        h.push(k.to_string(), v.to_string());
    }
    h
}

fn request(pairs: &[(&str, &str)], peer: Option<PeerAddr>, route: Option<&str>) -> RequestInfo {
    RequestInfo {
        method: Method::Get,
        target: Some("/users/42".to_string()),
        version: HttpVersion::V11,
        scheme: Some("http".to_string()),
        uri_host: None,
        headers: headers_of(pairs),
        peer,
        route: route.map(|r| r.to_string()),
    }
}

fn attr_str(span: &Span, key: &str) -> Option<String> {
    match span.attrs.get(key) {
        Some(AttrValue::Str(s)) => Some(s.clone()),
        _ => None,
    }
}

fn is_lower_hex(s: &str) -> bool {
    s.chars().all(|c| c.is_ascii_hexdigit() && !c.is_ascii_uppercase())
}

const TP: &str = "00-0af7651916cd43dd8448eb211c80319c-b7ad6b7169203331-01";

#[test]
fn span_named_from_method_and_route() {
    let req = request(&[], None, Some("/users/:id"));
    let span = AxumOtelSpanLayer.make_span(&req, 0);
    assert_eq!(span.name, "GET /users/:id");
    assert_eq!(span.state, SpanState::Active);

    let bare = request(&[], None, None);
    let span = AxumOtelSpanLayer.make_span(&bare, 0);
    assert_eq!(span.name, "GET");
}

#[test]
fn parent_trace_id_adopted() {
    let req = request(&[("traceparent", TP)], None, None);
    let span = AxumOtelSpanLayer.make_span(&req, 0);
    assert_eq!(span.trace_id, "0af7651916cd43dd8448eb211c80319c");
    assert_eq!(
        attr_str(&span, "trace_id").unwrap(),
        "0af7651916cd43dd8448eb211c80319c"
    );
}

#[test]
fn absent_traceparent_yields_fresh_root() {
    let req = request(&[], None, None);
    let span = AxumOtelSpanLayer.make_span(&req, 0);
    assert_eq!(span.trace_id.len(), 32);
    assert!(is_lower_hex(&span.trace_id));
    assert_ne!(span.trace_id, "0".repeat(32));
}

#[test]
fn malformed_traceparent_yields_fresh_root() {
    let zero_trace = "00-00000000000000000000000000000000-b7ad6b7169203331-01";
    let bad_len = "00-0af7651916cd43dd8448eb211c80319c-b7ad6b716920333-01";
    let bad_version = "ff-0af7651916cd43dd8448eb211c80319c-b7ad6b7169203331-01";
    let upper = "00-0AF7651916CD43DD8448EB211C80319C-B7AD6B7169203331-01";
    for bad in [zero_trace, bad_len, bad_version, upper] {
        let req = request(&[("traceparent", bad)], None, None);
        let span = AxumOtelSpanLayer.make_span(&req, 0);
        assert_eq!(span.trace_id.len(), 32);
        assert!(is_lower_hex(&span.trace_id));
        assert_ne!(span.trace_id, "0af7651916cd43dd8448eb211c80319c");
    }
}

#[test]
fn request_id_idempotent() {
    let req = request(&[("x-request-id", "abc-123")], None, None);
    let svc = OtelService {};
    let mut span = svc.begin(&req, 10);
    assert_eq!(span.request_id, "abc-123");
    assert_eq!(attr_str(&span, "request_id").unwrap(), "abc-123");

    let mut resp = HeaderExtractor::new();
    svc.finish(&mut span, &Outcome::Response { status: 200 }, &mut resp, 20);
    assert_eq!(resp.get("x-request-id").unwrap().as_str(), "abc-123");
}

#[test]
fn request_id_header_lookup_ignores_case() {
    let req = request(&[("X-Request-Id", "weird-CASE-id")], None, None);
    let span = AxumOtelSpanLayer.make_span(&req, 0);
    assert_eq!(span.request_id, "weird-CASE-id");
}

#[test]
fn request_id_fallback_header() {
    let req = request(&[("request-id", "fallback-7")], None, None);
    let span = AxumOtelSpanLayer.make_span(&req, 0);
    assert_eq!(span.request_id, "fallback-7");
}

#[test]
fn request_id_generated_when_absent() {
    let req = request(&[], None, None);
    let span = AxumOtelSpanLayer.make_span(&req, 0);
    let id = &span.request_id;
    assert_eq!(id.len(), 36);
    for (i, c) in id.chars().enumerate() {
        if i == 8 || i == 13 || i == 18 || i == 23 {
            assert_eq!(c, '-');
        } else {
            assert!(c.is_ascii_hexdigit() && !c.is_ascii_uppercase());
        }
    }
}

#[test]
fn status_mapping_success() {
    let req = request(&[], None, None);
    let svc = OtelService {};
    let mut span = svc.begin(&req, 0);
    let mut resp = HeaderExtractor::new();
    svc.finish(&mut span, &Outcome::Response { status: 200 }, &mut resp, 5);
    assert_eq!(span.state, SpanState::Finalized);
    assert_eq!(span.name, "GET");
    assert_eq!(span.status, SpanStatus::Okay);
    assert_eq!(span.attrs.get("http.status_code"), Some(&AttrValue::Int(200)));
    assert!(span.attrs.get("error").is_none());
}

#[test]
fn status_mapping_client_error() {
    let req = request(&[], None, None);
    let svc = OtelService {};
    let mut span = svc.begin(&req, 0);
    let mut resp = HeaderExtractor::new();
    svc.finish(&mut span, &Outcome::Response { status: 404 }, &mut resp, 5);
    assert_eq!(span.state, SpanState::Finalized);
    assert_eq!(
        span.status,
        SpanStatus::Error { message: "HTTP error: 404".to_string() }
    );
    assert_eq!(span.attrs.get("http.status_code"), Some(&AttrValue::Int(404)));
    assert!(span.attrs.get("error").is_none());
}

#[test]
fn status_mapping_server_error() {
    let req = request(&[], None, None);
    let svc = OtelService {};
    let mut span = svc.begin(&req, 0);
    let mut resp = HeaderExtractor::new();
    svc.finish(&mut span, &Outcome::Response { status: 503 }, &mut resp, 5);
    assert_eq!(span.state, SpanState::Finalized);
    assert_eq!(
        span.status,
        SpanStatus::Error { message: "HTTP error: 503".to_string() }
    );
    assert_eq!(span.attrs.get("error"), Some(&AttrValue::Bool(true)));
}

#[test]
fn handler_failure_fails_span() {
    let req = request(&[], None, None);
    let svc = OtelService {};
    let mut span = svc.begin(&req, 0);
    let mut resp = HeaderExtractor::new();
    svc.finish(&mut span, &Outcome::HandlerError, &mut resp, 5);
    assert_eq!(span.state, SpanState::Failed);
    assert_eq!(
        span.status,
        SpanStatus::Error { message: "Internal Server Error".to_string() }
    );
    assert_eq!(span.attrs.get("http.status_code"), Some(&AttrValue::Int(500)));
    assert_eq!(span.attrs.get("error"), Some(&AttrValue::Bool(true)));
    assert!(resp.get("x-request-id").is_none());
}

#[test]
fn cancellation_still_finalizes() {
    let req = request(&[], None, None);
    let svc = OtelService {};
    let mut span = svc.begin(&req, 40);
    let mut resp = HeaderExtractor::new();
    svc.finish(&mut span, &Outcome::Cancelled, &mut resp, 100);
    assert_eq!(span.state, SpanState::Failed);
    assert_eq!(span.end_nanos, Some(100));
    assert_eq!(
        span.attrs.get("otel.duration_nanos"),
        Some(&AttrValue::Int(60))
    );
}

#[test]
fn duration_recorded_on_every_outcome() {
    let svc = OtelService {};
    for outcome in [
        Outcome::Response { status: 200 },
        Outcome::Response { status: 500 },
        Outcome::HandlerError,
        Outcome::Cancelled,
    ] {
        let req = request(&[], None, None);
        let mut span = svc.begin(&req, 100);
        let mut resp = HeaderExtractor::new();
        svc.finish(&mut span, &outcome, &mut resp, 350);
        assert_eq!(span.end_nanos, Some(350));
        assert_eq!(
            span.attrs.get("otel.duration_nanos"),
            Some(&AttrValue::Int(250))
        );
    }
}

#[test]
fn duration_clamped_when_clock_goes_backwards() {
    let req = request(&[], None, None);
    let svc = OtelService {};
    let mut span = svc.begin(&req, 100);
    let mut resp = HeaderExtractor::new();
    svc.finish(&mut span, &Outcome::Response { status: 200 }, &mut resp, 30);
    assert_eq!(
        span.attrs.get("otel.duration_nanos"),
        Some(&AttrValue::Int(0))
    );
}

#[test]
fn client_ip_precedence() {
    let peer = Some(PeerAddr { ip: "9.9.9.9".to_string(), port: Some(8443) });
    let req = request(&[("X-Forwarded-For", "1.2.3.4, 5.6.7.8")], peer, None);
    let span = AxumOtelSpanLayer.make_span(&req, 0);
    assert_eq!(attr_str(&span, "http.client_ip").unwrap(), "1.2.3.4");
    assert_eq!(attr_str(&span, "net.peer.ip").unwrap(), "1.2.3.4");
    assert_eq!(span.attrs.get("net.peer.port"), Some(&AttrValue::Int(8443)));
}

#[test]
fn client_ip_forwarded_fallback() {
    let req = request(&[("Forwarded", "proto=https; for=2.3.4.5")], None, None);
    let span = AxumOtelSpanLayer.make_span(&req, 0);
    assert_eq!(attr_str(&span, "http.client_ip").unwrap(), "2.3.4.5");
}

#[test]
fn client_ip_peer_fallback() {
    let peer = Some(PeerAddr { ip: "9.9.9.9".to_string(), port: None });
    let req = request(&[], peer, None);
    let span = AxumOtelSpanLayer.make_span(&req, 0);
    assert_eq!(attr_str(&span, "http.client_ip").unwrap(), "9.9.9.9");
    assert!(span.attrs.get("net.peer.port").is_none());
}

#[test]
fn collected_attributes() {
    let req = RequestInfo {
        method: Method::Post,
        target: Some("/x?q=1".to_string()),
        version: HttpVersion::V2,
        scheme: Some("http".to_string()),
        uri_host: Some("fallback.example".to_string()),
        headers: headers_of(&[
            ("X-Forwarded-Proto", "https"),
            ("Host", "api.example.com"),
            ("User-Agent", "curl/8"),
        ]),
        peer: None,
        route: Some("/x".to_string()),
    };
    let span = AxumOtelSpanLayer.make_span(&req, 0);
    assert_eq!(attr_str(&span, "http.method").unwrap(), "POST");
    assert_eq!(attr_str(&span, "http.target").unwrap(), "/x?q=1");
    assert_eq!(attr_str(&span, "otel.kind").unwrap(), "server");
    assert_eq!(attr_str(&span, "http.flavor").unwrap(), "2.0");
    assert_eq!(attr_str(&span, "http.scheme").unwrap(), "https");
    assert_eq!(attr_str(&span, "http.host").unwrap(), "api.example.com");
    assert_eq!(attr_str(&span, "http.user_agent").unwrap(), "curl/8");
    assert_eq!(attr_str(&span, "http.route").unwrap(), "/x");
    assert_eq!(span.name, "POST /x");
    assert_eq!(span.attrs.entries[0].key, "http.method");
}

#[test]
fn late_route_update() {
    let req = request(&[], None, None);
    let mut span = init_otel_layer().service().begin(&req, 0);
    assert_eq!(span.name, "GET");
    span.set_route(&Method::Get, "/users/:id");
    assert_eq!(span.name, "GET /users/:id");
    assert_eq!(attr_str(&span, "http.route").unwrap(), "/users/:id");
}

#[test]
fn builder_roundtrip() {
    let layer: OtelLayer = OtelLayer::builder().build();
    let svc = layer.service();
    let req = request(&[], None, None);
    let span = svc.begin(&req, 0);
    assert_eq!(span.state, SpanState::Active);
}

#[test]
fn set_otel_parent_adopts_context() {
    let req = request(&[], None, None);
    let mut span = AxumOtelSpanLayer.make_span(&req, 0);
    let upstream = headers_of(&[("traceparent", TP)]);
    set_otel_parent(&upstream, &mut span);
    assert_eq!(span.trace_id, "0af7651916cd43dd8448eb211c80319c");
    assert_eq!(
        attr_str(&span, "trace_id").unwrap(),
        "0af7651916cd43dd8448eb211c80319c"
    );
}
