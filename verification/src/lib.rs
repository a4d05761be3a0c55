//! Request-tracing middleware core.
//!
//! For every inbound HTTP request the library extracts an upstream trace
//! context from the request headers, derives the standardized span
//! attributes, creates a span, resolves a per-request correlation
//! identifier, and — once the inner handler has produced an outcome —
//! finalizes the span with its status and duration and mirrors the
//! correlation identifier into the response headers.
pub mod attrs;
pub mod headers;
pub mod ids;
pub mod middleware;
pub mod propagation;
pub mod request;
pub mod span;
pub mod text;

pub use ids::{generate_request_id, get_request_id};
pub use middleware::{
    init_otel_layer, set_otel_parent, AxumOtelOnFailure, AxumOtelOnResponseLayer,
    AxumOtelSpanLayer, OtelLayer, OtelLayerBuilder, OtelService, Outcome,
};
pub use request::{http_flavor, http_method_str, http_scheme};
