//! The per-request middleware core: creating the span from the extracted
//! context and collected attributes, and finalizing it once the inner
//! handler's outcome is known.
use vstd::prelude::*;

use crate::attrs::{attrs_set, AttrV, AttrValue};
use crate::headers::{spec_headers_set, HeaderExtractor};
use crate::ids::{get_request_id, is_fresh_request_id, spec_nonempty_header};
use crate::ids::fresh_trace_id;
use crate::propagation::{all_hex_lower, all_zero, extract, spec_extract, CtxV, TraceContext};
use crate::request::{collect_attributes, span_name, spec_collect, spec_method_str, spec_span_name,
    RequestInfo};
use crate::span::{spec_fail_attrs, spec_finalize_attrs, spec_status_for, spec_step_allowed,
    spec_terminal, status_view, duration_of, Span, SpanState, StatusV};

verus! {

/// The outcome of one request, produced exactly once: the inner handler
/// returned a response with a status code, failed with an error, or was
/// cancelled before producing either.
#[derive(Debug, PartialEq, Eq)]
pub enum Outcome {
    Response { status: u16 },
    HandlerError,
    Cancelled,
}

/// The terminal state each outcome leads to.
pub open spec fn spec_outcome_state(o: Outcome) -> SpanState {
    match o {
        Outcome::Response { .. } => SpanState::Finalized,
        Outcome::HandlerError => SpanState::Failed,
        Outcome::Cancelled => SpanState::Failed,
    }
}

/// Every outcome — a response, a handler failure, or a cancellation — leads
/// to a terminal state: no request leaves its span un-finalized.
pub proof fn lemma_every_outcome_terminal(o: Outcome)
    ensures
        spec_terminal(spec_outcome_state(o)),
{
}

/// A fresh root trace id: 32 lowercase hexadecimal digits, not all zero.
pub open spec fn is_valid_trace_id(s: Seq<char>) -> bool {
    &&& s.len() == 32
    &&& all_hex_lower(s)
    &&& !all_zero(s)
}

/// Creates the span for one inbound request.
#[derive(Clone, Copy)]
pub struct AxumOtelSpanLayer;

impl AxumOtelSpanLayer {
    /// Builds the request's span: extracts the upstream context, collects
    /// the standardized attributes, names the span from the method and the
    /// matched route, resolves the correlation id, and activates the span.
    ///
    /// The span's trace id is the decoded parent's trace id when the request
    /// carries well-formed propagation data, and a freshly generated one
    /// otherwise; the correlation id is taken verbatim from a non-empty
    /// inbound `x-request-id` (then `request-id`) header, else freshly
    /// generated.
    pub fn make_span(&self, req: &RequestInfo, start_nanos: u64) -> (r: Span)
        ensures
            r.wf(),
            r.state == SpanState::Active,
            r.end_nanos is None,
            r.start_nanos == start_nanos,
            r.name@ == spec_span_name(
                spec_method_str(req.method),
                match req.route {
                    Some(rt) => Some(rt@),
                    None => None,
                },
            ),
            spec_extract(req.headers@) matches CtxV::Parent { trace_id, .. } ==> r.trace_id@
                == trace_id,
            spec_extract(req.headers@) is Root ==> is_valid_trace_id(r.trace_id@),
            spec_nonempty_header(req.headers@, "x-request-id"@) matches Some(v) ==> r.request_id@
                == v,
            spec_nonempty_header(req.headers@, "x-request-id"@) is None ==> (match
                spec_nonempty_header(req.headers@, "request-id"@) {
                Some(v) => r.request_id@ == v,
                None => is_fresh_request_id(r.request_id@),
            }),
            r.attrs@ == attrs_set(
                attrs_set(spec_collect(*req), "trace_id"@, AttrV::Str(r.trace_id@)),
                "request_id"@,
                AttrV::Str(r.request_id@),
            ),
            status_view(r.status) == StatusV::Unset,
    {
        let name = span_name(&req.method, &req.route);
        let mut attrs = collect_attributes(req);
        let ctx = extract(&req.headers);
        let trace_id = match ctx {
            TraceContext::Parent { trace_id, span_id: _, sampled: _ } => trace_id,
            TraceContext::Root => {
                let t = fresh_trace_id();
                proof {
                    if all_zero(t@) {
                        assert(t@[12] == '0');
                    }
                }
                t
            },
        };
        let request_id = get_request_id(req);
        attrs.set(String::from_str("trace_id"), AttrValue::Str(trace_id.clone()));
        attrs.set(String::from_str("request_id"), AttrValue::Str(request_id.clone()));
        let mut span = Span::new(name, trace_id, request_id, start_nanos, attrs);
        span.activate();
        span
    }
}

/// Finalizes the span from a returned response.
#[derive(Clone, Copy)]
pub struct AxumOtelOnResponseLayer;

impl AxumOtelOnResponseLayer {
    /// Settles the span from the response's status code, records the status
    /// code and duration, and mirrors the span's correlation id into the
    /// response's `x-request-id` header.
    pub fn on_response(
        &self,
        span: &mut Span,
        status: u16,
        response_headers: &mut HeaderExtractor,
        end_nanos: u64,
    )
        requires
            old(span).wf(),
            old(span).state == SpanState::Active,
        ensures
            final(span).wf(),
            spec_step_allowed(old(span).state, final(span).state),
            final(span).state == SpanState::Finalized,
            status_view(final(span).status) == spec_status_for(status),
            final(span).attrs@ == spec_finalize_attrs(
                old(span).attrs@,
                status,
                duration_of(old(span).start_nanos, end_nanos),
            ),
            final(span).end_nanos == Some(end_nanos),
            final(span).request_id@ == old(span).request_id@,
            final(span).trace_id@ == old(span).trace_id@,
            final(span).name@ == old(span).name@,
            final(span).start_nanos == old(span).start_nanos,
            final(response_headers)@ == spec_headers_set(
                old(response_headers)@,
                "x-request-id"@,
                old(span).request_id@,
            ),
    {
        span.finalize_response(status, end_nanos);
        let rid = span.request_id.clone();
        response_headers.set(String::from_str("x-request-id"), rid);
    }
}

/// Finalizes the span when the inner handler fails instead of responding.
#[derive(Clone, Copy)]
pub struct AxumOtelOnFailure;

impl AxumOtelOnFailure {
    /// Settles the span as failed: a forced error status, a synthetic
    /// server-error status code, `error = true`, and the duration.
    pub fn on_failure(&self, span: &mut Span, end_nanos: u64)
        requires
            old(span).wf(),
            old(span).state == SpanState::Active,
        ensures
            final(span).wf(),
            spec_step_allowed(old(span).state, final(span).state),
            final(span).state == SpanState::Failed,
            status_view(final(span).status) == StatusV::Error("Internal Server Error"@),
            final(span).attrs@ == spec_fail_attrs(
                old(span).attrs@,
                duration_of(old(span).start_nanos, end_nanos),
            ),
            final(span).end_nanos == Some(end_nanos),
            final(span).request_id@ == old(span).request_id@,
            final(span).trace_id@ == old(span).trace_id@,
            final(span).name@ == old(span).name@,
            final(span).start_nanos == old(span).start_nanos,
    {
        span.fail(end_nanos);
    }
}

/// Builder for [`OtelLayer`]; the layer has no options to configure.
#[derive(Clone, Default)]
pub struct OtelLayerBuilder {}

impl OtelLayerBuilder {
    /// Creates a builder with default settings.
    pub fn new() -> (r: OtelLayerBuilder) {
        OtelLayerBuilder {  }
    }

    /// Builds the layer.
    pub fn build(self) -> (r: OtelLayer) {
        OtelLayer {  }
    }
}

/// The middleware layer; wraps an inner handler through [`OtelService`].
#[derive(Clone)]
pub struct OtelLayer {}

impl OtelLayer {
    /// A builder for the layer.
    pub fn builder() -> (r: OtelLayerBuilder) {
        OtelLayerBuilder::new()
    }

    /// The per-request service of this layer.
    pub fn service(&self) -> (r: OtelService) {
        OtelService {  }
    }
}

/// A layer with default settings.
pub fn init_otel_layer() -> (r: OtelLayer) {
    OtelLayer::builder().build()
}

/// The per-request middleware core: `begin` before the inner handler is
/// invoked, `finish` once — and only once — when its outcome is known.
#[derive(Clone)]
pub struct OtelService {}

impl OtelService {
    /// The pre-dispatch half: creates and activates the request's span.
    /// Same contract as [`AxumOtelSpanLayer::make_span`].
    pub fn begin(&self, req: &RequestInfo, start_nanos: u64) -> (r: Span)
        ensures
            r.wf(),
            r.state == SpanState::Active,
            r.end_nanos is None,
            r.start_nanos == start_nanos,
            r.name@ == spec_span_name(
                spec_method_str(req.method),
                match req.route {
                    Some(rt) => Some(rt@),
                    None => None,
                },
            ),
            spec_extract(req.headers@) matches CtxV::Parent { trace_id, .. } ==> r.trace_id@
                == trace_id,
            spec_extract(req.headers@) is Root ==> is_valid_trace_id(r.trace_id@),
            spec_nonempty_header(req.headers@, "x-request-id"@) matches Some(v) ==> r.request_id@
                == v,
            spec_nonempty_header(req.headers@, "x-request-id"@) is None ==> (match
                spec_nonempty_header(req.headers@, "request-id"@) {
                Some(v) => r.request_id@ == v,
                None => is_fresh_request_id(r.request_id@),
            }),
            r.attrs@ == attrs_set(
                attrs_set(spec_collect(*req), "trace_id"@, AttrV::Str(r.trace_id@)),
                "request_id"@,
                AttrV::Str(r.request_id@),
            ),
            status_view(r.status) == StatusV::Unset,
    {
        AxumOtelSpanLayer.make_span(req, start_nanos)
    }

    /// The completion half: whatever the outcome — a response, a handler
    /// failure, or a cancellation — the span reaches a terminal state, with
    /// its duration recorded; on a response the span's correlation id is
    /// mirrored into the response's `x-request-id` header.
    pub fn finish(
        &self,
        span: &mut Span,
        outcome: &Outcome,
        response_headers: &mut HeaderExtractor,
        end_nanos: u64,
    )
        requires
            old(span).wf(),
            old(span).state == SpanState::Active,
        ensures
            final(span).wf(),
            spec_step_allowed(old(span).state, final(span).state),
            final(span).state == spec_outcome_state(*outcome),
            spec_terminal(final(span).state),
            final(span).end_nanos == Some(end_nanos),
            final(span).request_id@ == old(span).request_id@,
            final(span).trace_id@ == old(span).trace_id@,
            final(span).name@ == old(span).name@,
            final(span).start_nanos == old(span).start_nanos,
            *outcome matches Outcome::Response { status } ==> {
                &&& status_view(final(span).status) == spec_status_for(status)
                &&& final(span).attrs@ == spec_finalize_attrs(
                    old(span).attrs@,
                    status,
                    duration_of(old(span).start_nanos, end_nanos),
                )
                &&& final(response_headers)@ == spec_headers_set(
                    old(response_headers)@,
                    "x-request-id"@,
                    old(span).request_id@,
                )
            },
            !(*outcome matches Outcome::Response { .. }) ==> {
                &&& status_view(final(span).status) == StatusV::Error("Internal Server Error"@)
                &&& final(span).attrs@ == spec_fail_attrs(
                    old(span).attrs@,
                    duration_of(old(span).start_nanos, end_nanos),
                )
                &&& final(response_headers)@ == old(response_headers)@
            },
    {
        match outcome {
            Outcome::Response { status } => {
                AxumOtelOnResponseLayer.on_response(span, *status, response_headers, end_nanos);
            },
            Outcome::HandlerError => {
                AxumOtelOnFailure.on_failure(span, end_nanos);
            },
            Outcome::Cancelled => {
                AxumOtelOnFailure.on_failure(span, end_nanos);
            },
        }
    }
}

/// Re-extracts the upstream context and re-parents the span: with a
/// well-formed `traceparent` present the span adopts the decoded trace id,
/// otherwise it keeps its own; either way the trace id is recorded as the
/// `trace_id` attribute.
pub fn set_otel_parent(headers: &HeaderExtractor, span: &mut Span)
    requires
        old(span).wf(),
        !old(span).terminal(),
    ensures
        final(span).wf(),
        final(span).state == old(span).state,
        spec_extract(headers@) matches CtxV::Parent { trace_id, .. } ==> final(span).trace_id@
            == trace_id,
        spec_extract(headers@) is Root ==> final(span).trace_id@ == old(span).trace_id@,
        final(span).attrs@ == attrs_set(
            old(span).attrs@,
            "trace_id"@,
            AttrV::Str(final(span).trace_id@),
        ),
        final(span).name@ == old(span).name@,
        final(span).request_id@ == old(span).request_id@,
        final(span).start_nanos == old(span).start_nanos,
        final(span).end_nanos == old(span).end_nanos,
{
    let ctx = extract(headers);
    match ctx {
        TraceContext::Parent { trace_id, span_id: _, sampled: _ } => {
            span.trace_id = trace_id;
        },
        TraceContext::Root => (),
    }
    let tid = span.trace_id.clone();
    span.set_attribute(String::from_str("trace_id"), AttrValue::Str(tid));
}

} // verus!
