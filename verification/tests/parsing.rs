use axum_otel::headers::HeaderExtractor;
use axum_otel::ids::{generate_request_id, resolve_request_id};
use axum_otel::propagation::{extract, inject, is_valid_traceparent, TraceContext};
use axum_otel::request::{
    fwd_for, http_flavor, http_method_str, http_scheme, resolve_client_ip, span_name, xff_entry,
    HttpVersion, Method, PeerAddr,
};
use axum_otel::text::{find_char, str_eq, str_eq_ci, trim_str, u64_to_dec};

fn headers_of(pairs: &[(&str, &str)]) -> HeaderExtractor {
    let mut h = HeaderExtractor::new();
    for (k, v) in pairs {
        h.push(k.to_string(), v.to_string());
    }
    h
}

const TP: &str = "00-0af7651916cd43dd8448eb211c80319c-b7ad6b7169203331-01";

#[test]
fn header_lookup_is_case_insensitive() {
    let h = headers_of(&[("Content-Type", "text/plain"), ("HOST", "a.example")]);
    assert_eq!(h.get("content-type").unwrap().as_str(), "text/plain");
    assert_eq!(h.get("host").unwrap().as_str(), "a.example");
    assert!(h.get("user-agent").is_none());
}

#[test]
fn header_first_match_wins() {
    let h = headers_of(&[("X-Id", "first"), ("x-id", "second")]);
    assert_eq!(h.get("X-ID").unwrap().as_str(), "first");
}

#[test]
fn header_set_overwrites_in_place() {
    let mut h = headers_of(&[("a", "1"), ("b", "2")]);
    h.set("A".to_string(), "9".to_string());
    assert_eq!(h.get("a").unwrap().as_str(), "9");
    assert_eq!(h.entries.len(), 2);
    h.set("c".to_string(), "3".to_string());
    assert_eq!(h.entries.len(), 3);
    let keys = h.keys();
    assert_eq!(keys, vec!["A".to_string(), "b".to_string(), "c".to_string()]);
}

#[test]
fn keys_yield_each_name_once() {
    let h = headers_of(&[("X-Id", "1"), ("x-id", "2"), ("Host", "h"), ("X-ID", "3")]);
    assert_eq!(h.keys(), vec!["X-Id".to_string(), "Host".to_string()]);
    let empty = headers_of(&[]);
    assert_eq!(empty.keys(), Vec::<String>::new());
}

#[test]
fn trim_and_find() {
    assert_eq!(trim_str("  a b\t "), "a b");
    assert_eq!(trim_str(""), "");
    assert_eq!(trim_str(" \t "), "");
    assert_eq!(find_char("a,b", ','), 1);
    assert_eq!(find_char("abc", ','), 3);
}

#[test]
fn decimal_rendering() {
    assert_eq!(u64_to_dec(0), "0");
    assert_eq!(u64_to_dec(7), "7");
    assert_eq!(u64_to_dec(404), "404");
    assert_eq!(u64_to_dec(18446744073709551615), "18446744073709551615");
}

#[test]
fn string_comparison() {
    assert!(str_eq("abc", "abc"));
    assert!(!str_eq("abc", "abd"));
    assert!(str_eq_ci("Traceparent", "tRACEPARENT"));
    assert!(!str_eq_ci("for", "fog"));
}

#[test]
fn traceparent_grammar() {
    assert!(is_valid_traceparent(TP));
    assert!(is_valid_traceparent(
        "01-0af7651916cd43dd8448eb211c80319c-b7ad6b7169203331-00"
    ));
    // wrong length
    assert!(!is_valid_traceparent(
        "00-0af7651916cd43dd8448eb211c80319c-b7ad6b7169203331-0"
    ));
    // reserved version
    assert!(!is_valid_traceparent(
        "ff-0af7651916cd43dd8448eb211c80319c-b7ad6b7169203331-01"
    ));
    // zero span id
    assert!(!is_valid_traceparent(
        "00-0af7651916cd43dd8448eb211c80319c-0000000000000000-01"
    ));
    // non-hex digit
    assert!(!is_valid_traceparent(
        "00-0af7651916cd43dd8448eb211c80319g-b7ad6b7169203331-01"
    ));
    // misplaced separator
    assert!(!is_valid_traceparent(
        "000-af7651916cd43dd8448eb211c80319c-b7ad6b7169203331-01"
    ));
}

#[test]
fn extract_decodes_parent() {
    let h = headers_of(&[("Traceparent", TP)]);
    let ctx = extract(&h);
    assert_eq!(
        ctx,
        TraceContext::Parent {
            trace_id: "0af7651916cd43dd8448eb211c80319c".to_string(),
            span_id: "b7ad6b7169203331".to_string(),
            sampled: true,
        }
    );
}

#[test]
fn extract_degrades_to_root() {
    assert_eq!(extract(&headers_of(&[])), TraceContext::Root);
    let garbled = headers_of(&[("traceparent", "not a trace header")]);
    assert_eq!(extract(&garbled), TraceContext::Root);
}

#[test]
fn extract_unsampled_flag() {
    let h = headers_of(&[(
        "traceparent",
        "00-0af7651916cd43dd8448eb211c80319c-b7ad6b7169203331-00",
    )]);
    match extract(&h) {
        TraceContext::Parent { sampled, .. } => assert!(!sampled),
        TraceContext::Root => panic!("expected a parent context"),
    }
}

#[test]
fn inject_writes_traceparent() {
    let ctx = TraceContext::Parent {
        trace_id: "0af7651916cd43dd8448eb211c80319c".to_string(),
        span_id: "b7ad6b7169203331".to_string(),
        sampled: true,
    };
    let mut carrier = HeaderExtractor::new();
    inject(&ctx, &mut carrier);
    assert_eq!(carrier.get("traceparent").unwrap().as_str(), TP);
    // a round trip decodes to the same context
    assert_eq!(extract(&carrier), ctx);
}

#[test]
fn inject_root_writes_nothing() {
    let mut carrier = HeaderExtractor::new();
    inject(&TraceContext::Root, &mut carrier);
    assert!(carrier.get("traceparent").is_none());
    assert_eq!(carrier.entries.len(), 0);
}

#[test]
fn method_tokens() {
    assert_eq!(http_method_str(&Method::Get), "GET");
    assert_eq!(http_method_str(&Method::Options), "OPTIONS");
    assert_eq!(http_method_str(&Method::Patch), "PATCH");
    assert_eq!(http_method_str(&Method::Other("QUERY".to_string())), "QUERY");
}

#[test]
fn flavor_tokens() {
    assert_eq!(http_flavor(HttpVersion::V09), "0.9");
    assert_eq!(http_flavor(HttpVersion::V10), "1.0");
    assert_eq!(http_flavor(HttpVersion::V11), "1.1");
    assert_eq!(http_flavor(HttpVersion::V2), "2.0");
    assert_eq!(http_flavor(HttpVersion::V3), "3.0");
    assert_eq!(http_flavor(HttpVersion::VOther), "unknown");
}

#[test]
fn scheme_token_passes_through() {
    assert_eq!(http_scheme("http"), "http");
    assert_eq!(http_scheme("https"), "https");
    assert_eq!(http_scheme("wss"), "wss");
}

#[test]
fn span_name_shapes() {
    assert_eq!(
        span_name(&Method::Get, &Some("/users/:id".to_string())),
        "GET /users/:id"
    );
    assert_eq!(span_name(&Method::Get, &None), "GET");
}

#[test]
fn xff_first_entry_trimmed() {
    assert_eq!(xff_entry(" 1.2.3.4 , 5.6.7.8"), "1.2.3.4");
    assert_eq!(xff_entry("1.2.3.4"), "1.2.3.4");
    assert_eq!(xff_entry(""), "");
}

#[test]
fn forwarded_for_parameter() {
    assert_eq!(fwd_for("for=1.2.3.4"), Some("1.2.3.4".to_string()));
    assert_eq!(fwd_for("proto=https; for=2.2.2.2; by=3.3.3.3"), Some("2.2.2.2".to_string()));
    assert_eq!(fwd_for("proto=https"), None);
    assert_eq!(fwd_for("for"), None);
    // the parameter key is matched exactly
    assert_eq!(fwd_for("For=1.2.3.4"), None);
}

#[test]
fn client_ip_sources() {
    let peer = Some(PeerAddr { ip: "9.9.9.9".to_string(), port: None });
    let both = headers_of(&[("X-Forwarded-For", "1.2.3.4, 5.6.7.8")]);
    assert_eq!(resolve_client_ip(&both, &peer), Some("1.2.3.4".to_string()));
    let fwd = headers_of(&[("Forwarded", "for=2.3.4.5")]);
    assert_eq!(resolve_client_ip(&fwd, &peer), Some("2.3.4.5".to_string()));
    let none = headers_of(&[]);
    assert_eq!(resolve_client_ip(&none, &peer), Some("9.9.9.9".to_string()));
    assert_eq!(resolve_client_ip(&none, &None), None);
}

#[test]
fn request_id_resolution_rules() {
    let h = headers_of(&[("x-request-id", "id-1"), ("request-id", "id-2")]);
    assert_eq!(resolve_request_id(&h, "fresh".to_string()), "id-1");
    let h = headers_of(&[("x-request-id", ""), ("request-id", "id-2")]);
    assert_eq!(resolve_request_id(&h, "fresh".to_string()), "id-2");
    let h = headers_of(&[]);
    assert_eq!(resolve_request_id(&h, "fresh".to_string()), "fresh");
}

#[test]
fn generated_request_ids_are_tokens() {
    let a = generate_request_id();
    let b = generate_request_id();
    assert_eq!(a.len(), 36);
    assert!(a.chars().all(|c| c == '-' || (c.is_ascii_hexdigit() && !c.is_ascii_uppercase())));
    // 128-bit random identifiers do not collide
    assert_ne!(a, b);
}
