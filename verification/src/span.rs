//! The span and its lifecycle: a span is created, activated, optionally
//! updated while the request is in flight, and finalized exactly once —
//! either from a response or from a handler failure.
use vstd::prelude::*;

use crate::attrs::{
    attrs_contains, attrs_set, attrs_value, attrs_wf, lemma_attrs_set_frame, lemma_attrs_set_wf,
    AttrV, AttrValue, AttributeSet,
};
use crate::request::{spec_method_str, spec_span_name, span_name, Method};
use crate::text::{dec_digits, u64_to_dec};

verus! {

/// The lifecycle state of a span.
#[derive(Clone, Copy, Debug, PartialEq, Eq, Structural)]
pub enum SpanState {
    Created,
    Active,
    Finalized,
    Failed,
}

/// The status of a span: unset while in flight, then settled on completion.
#[derive(Debug, PartialEq, Eq)]
pub enum SpanStatus {
    Unset,
    Okay,
    Error { message: String },
}

/// The mathematical value of a [`SpanStatus`].
pub enum StatusV {
    Unset,
    Okay,
    Error(Seq<char>),
}

/// The mathematical value of a [`SpanStatus`].
pub open spec fn status_view(s: SpanStatus) -> StatusV {
    match s {
        SpanStatus::Unset => StatusV::Unset,
        SpanStatus::Okay => StatusV::Okay,
        SpanStatus::Error { message } => StatusV::Error(message@),
    }
}

/// Which lifecycle transitions exist: a created span is activated, and an
/// active span is finalized or failed. Terminal states have no successor.
pub open spec fn spec_step_allowed(from: SpanState, to: SpanState) -> bool {
    ||| (from == SpanState::Created && to == SpanState::Active)
    ||| (from == SpanState::Active && to == SpanState::Finalized)
    ||| (from == SpanState::Active && to == SpanState::Failed)
}

/// Whether a state is terminal.
pub open spec fn spec_terminal(s: SpanState) -> bool {
    s == SpanState::Finalized || s == SpanState::Failed
}

/// A span is finalized at most once: no transition leaves a terminal state,
/// so a span that has reached `Finalized` or `Failed` can never be finalized
/// — or changed — again.
pub proof fn lemma_finalize_is_final(from: SpanState, to: SpanState)
    requires
        spec_terminal(from),
    ensures
        !spec_step_allowed(from, to),
{
}

/// The elapsed wall-clock time between two clock readings, clamped to zero
/// if the clock went backwards, so that a clock fault never fails
/// finalization.
pub open spec fn duration_of(start: u64, end: u64) -> u64 {
    if end >= start {
        (end - start) as u64
    } else {
        0
    }
}

/// The span status derived from a response status code: a success-range
/// code settles the span as successful, anything else as an error whose
/// message names the numeric code.
pub open spec fn spec_status_for(code: u16) -> StatusV {
    if 200 <= code && code < 300 {
        StatusV::Okay
    } else {
        StatusV::Error("HTTP error: "@ + dec_digits(code as nat))
    }
}

/// The attributes recorded when a response finalizes a span: the status
/// code, `error = true` only for a server-error-range code, and the
/// duration.
pub open spec fn spec_finalize_attrs(
    a: Seq<(Seq<char>, AttrV)>,
    code: u16,
    dur: u64,
) -> Seq<(Seq<char>, AttrV)> {
    let a1 = attrs_set(a, "http.status_code"@, AttrV::Int(code as u64));
    let a2 = if 500 <= code && code < 600 {
        attrs_set(a1, "error"@, AttrV::Bool(true))
    } else {
        a1
    };
    attrs_set(a2, "otel.duration_nanos"@, AttrV::Int(dur))
}

/// The attributes recorded when a handler failure finalizes a span: a
/// synthetic server-error status code, `error = true`, and the duration.
pub open spec fn spec_fail_attrs(a: Seq<(Seq<char>, AttrV)>, dur: u64) -> Seq<(Seq<char>, AttrV)> {
    attrs_set(
        attrs_set(attrs_set(a, "http.status_code"@, AttrV::Int(500)), "error"@, AttrV::Bool(true)),
        "otel.duration_nanos"@,
        AttrV::Int(dur),
    )
}

/// The `error` flag is recorded exactly on server errors: finalizing from a
/// response sets `error = true` if and only if the status code is in the
/// server-error range, and a handler failure always sets it — provided, as
/// on every span the middleware creates, no `error` attribute was recorded
/// before finalization.
pub proof fn lemma_error_flag(a: Seq<(Seq<char>, AttrV)>, code: u16, dur: u64)
    requires
        attrs_wf(a),
        !attrs_contains(a, "error"@),
    ensures
        attrs_contains(spec_finalize_attrs(a, code, dur), "error"@) <==> (500 <= code && code
            < 600),
        500 <= code && code < 600 ==> attrs_value(spec_finalize_attrs(a, code, dur), "error"@)
            == AttrV::Bool(true),
        attrs_contains(spec_fail_attrs(a, dur), "error"@),
        attrs_value(spec_fail_attrs(a, dur), "error"@) == AttrV::Bool(true),
{
    reveal_strlit("error");
    reveal_strlit("http.status_code");
    reveal_strlit("otel.duration_nanos");
    assert("error"@.len() == 5);
    assert("http.status_code"@.len() == 16);
    assert("otel.duration_nanos"@.len() == 19);
    let code_k = "http.status_code"@;
    let err_k = "error"@;
    let dur_k = "otel.duration_nanos"@;
    let a1 = attrs_set(a, code_k, AttrV::Int(code as u64));
    lemma_attrs_set_wf(a, code_k, AttrV::Int(code as u64));
    lemma_attrs_set_frame(a, code_k, AttrV::Int(code as u64), err_k);
    if 500 <= code && code < 600 {
        let a2 = attrs_set(a1, err_k, AttrV::Bool(true));
        lemma_attrs_set_wf(a1, err_k, AttrV::Bool(true));
        lemma_attrs_set_frame(a2, dur_k, AttrV::Int(dur), err_k);
    } else {
        lemma_attrs_set_frame(a1, dur_k, AttrV::Int(dur), err_k);
    }
    let f1 = attrs_set(a, code_k, AttrV::Int(500));
    lemma_attrs_set_wf(a, code_k, AttrV::Int(500));
    let f2 = attrs_set(f1, err_k, AttrV::Bool(true));
    lemma_attrs_set_wf(f1, err_k, AttrV::Bool(true));
    lemma_attrs_set_frame(f2, dur_k, AttrV::Int(dur), err_k);
}

/// One request's span: a timed, attributed record of the traced work.
pub struct Span {
    pub name: String,
    pub state: SpanState,
    pub trace_id: String,
    pub request_id: String,
    pub start_nanos: u64,
    pub attrs: AttributeSet,
    pub status: SpanStatus,
    pub end_nanos: Option<u64>,
}

impl Span {
    /// Whether the span has reached a terminal state.
    pub open spec fn terminal(&self) -> bool {
        spec_terminal(self.state)
    }

    /// Well-formedness: unique attribute keys; the end time exists exactly
    /// on terminal spans; and a terminal span carries a settled status and
    /// its duration attribute.
    pub open spec fn wf(&self) -> bool {
        &&& self.attrs.wf()
        &&& (self.end_nanos is Some <==> self.terminal())
        &&& self.terminal() ==> !(status_view(self.status) == StatusV::Unset)
        &&& self.end_nanos matches Some(e) ==> {
            &&& attrs_contains(self.attrs@, "otel.duration_nanos"@)
            &&& attrs_value(self.attrs@, "otel.duration_nanos"@) == AttrV::Int(
                duration_of(self.start_nanos, e),
            )
        }
    }

    /// Allocates a span in the `Created` state.
    pub fn new(
        name: String,
        trace_id: String,
        request_id: String,
        start_nanos: u64,
        attrs: AttributeSet,
    ) -> (r: Span)
        requires
            attrs.wf(),
        ensures
            r.wf(),
            r.state == SpanState::Created,
            r.name@ == name@,
            r.trace_id@ == trace_id@,
            r.request_id@ == request_id@,
            r.start_nanos == start_nanos,
            r.attrs@ == attrs@,
            status_view(r.status) == StatusV::Unset,
            r.end_nanos is None,
    {
        Span {
            name,
            state: SpanState::Created,
            trace_id,
            request_id,
            start_nanos,
            attrs,
            status: SpanStatus::Unset,
            end_nanos: None,
        }
    }

    /// `Created` to `Active`: unconditional, with no failure mode.
    pub fn activate(&mut self)
        requires
            old(self).wf(),
            old(self).state == SpanState::Created,
        ensures
            final(self).wf(),
            spec_step_allowed(old(self).state, final(self).state),
            final(self).state == SpanState::Active,
            *final(self) == (Span { state: SpanState::Active, ..*old(self) }),
    {
        self.state = SpanState::Active;
    }

    /// Records one attribute; permitted until the span is finalized.
    pub fn set_attribute(&mut self, key: String, value: AttrValue)
        requires
            old(self).wf(),
            !old(self).terminal(),
        ensures
            final(self).wf(),
            final(self).attrs@ == attrs_set(old(self).attrs@, key@, value@),
            *final(self) == (Span { attrs: final(self).attrs, ..*old(self) }),
    {
        self.attrs.set(key, value);
    }

    /// Late route attachment: once the routing layer has matched, the span
    /// name becomes `"<METHOD> <route>"` and the route is recorded.
    pub fn set_route(&mut self, method: &Method, route: &str)
        requires
            old(self).wf(),
            !old(self).terminal(),
        ensures
            final(self).wf(),
            final(self).name@ == spec_span_name(spec_method_str(*method), Some(route@)),
            final(self).attrs@ == attrs_set(old(self).attrs@, "http.route"@, AttrV::Str(route@)),
            *final(self) == (Span { name: final(self).name, attrs: final(self).attrs, ..*old(self) }),
    {
        self.name = span_name(method, &Some(route.to_owned()));
        self.attrs.set(String::from_str("http.route"), AttrValue::Str(route.to_owned()));
    }

    /// `Active` to `Finalized`, from a response: derives the span status
    /// from the response status code, records the status code, sets
    /// `error = true` for server-error-range codes, and records the
    /// duration.
    pub fn finalize_response(&mut self, code: u16, end_nanos: u64)
        requires
            old(self).wf(),
            old(self).state == SpanState::Active,
        ensures
            final(self).wf(),
            spec_step_allowed(old(self).state, final(self).state),
            final(self).state == SpanState::Finalized,
            status_view(final(self).status) == spec_status_for(code),
            final(self).attrs@ == spec_finalize_attrs(
                old(self).attrs@,
                code,
                duration_of(old(self).start_nanos, end_nanos),
            ),
            final(self).end_nanos == Some(end_nanos),
            final(self).name@ == old(self).name@,
            final(self).trace_id@ == old(self).trace_id@,
            final(self).request_id@ == old(self).request_id@,
            final(self).start_nanos == old(self).start_nanos,
    {
        let dur: u64 = if end_nanos >= self.start_nanos {
            end_nanos - self.start_nanos
        } else {
            0
        };
        self.attrs.set(String::from_str("http.status_code"), AttrValue::Int(code as u64));
        if 500 <= code && code < 600 {
            self.attrs.set(String::from_str("error"), AttrValue::Bool(true));
        }
        proof {
            let a1 = attrs_set(old(self).attrs@, "http.status_code"@, AttrV::Int(code as u64));
            let a2 = if 500 <= code && code < 600 {
                attrs_set(a1, "error"@, AttrV::Bool(true))
            } else {
                a1
            };
            assert(self.attrs@ == a2);
            lemma_attrs_set_wf(a2, "otel.duration_nanos"@, AttrV::Int(dur));
        }
        self.attrs.set(String::from_str("otel.duration_nanos"), AttrValue::Int(dur));
        if 200 <= code && code < 300 {
            self.status = SpanStatus::Okay;
        } else {
            self.status = SpanStatus::Error {
                message: String::from_str("HTTP error: ").concat(u64_to_dec(code as u64).as_str()),
            };
        }
        self.state = SpanState::Finalized;
        self.end_nanos = Some(end_nanos);
    }

    /// `Active` to `Failed`, when the inner handler errs or is cancelled
    /// instead of returning a response: forces an error status, records a
    /// synthetic server-error status code and `error = true`, and records
    /// the duration.
    pub fn fail(&mut self, end_nanos: u64)
        requires
            old(self).wf(),
            old(self).state == SpanState::Active,
        ensures
            final(self).wf(),
            spec_step_allowed(old(self).state, final(self).state),
            final(self).state == SpanState::Failed,
            status_view(final(self).status) == StatusV::Error("Internal Server Error"@),
            final(self).attrs@ == spec_fail_attrs(
                old(self).attrs@,
                duration_of(old(self).start_nanos, end_nanos),
            ),
            final(self).end_nanos == Some(end_nanos),
            final(self).name@ == old(self).name@,
            final(self).trace_id@ == old(self).trace_id@,
            final(self).request_id@ == old(self).request_id@,
            final(self).start_nanos == old(self).start_nanos,
    {
        let dur: u64 = if end_nanos >= self.start_nanos {
            end_nanos - self.start_nanos
        } else {
            0
        };
        self.attrs.set(String::from_str("http.status_code"), AttrValue::Int(500));
        self.attrs.set(String::from_str("error"), AttrValue::Bool(true));
        proof {
            let a2 = attrs_set(
                attrs_set(old(self).attrs@, "http.status_code"@, AttrV::Int(500)),
                "error"@,
                AttrV::Bool(true),
            );
            assert(self.attrs@ == a2);
            lemma_attrs_set_wf(a2, "otel.duration_nanos"@, AttrV::Int(dur));
        }
        self.attrs.set(String::from_str("otel.duration_nanos"), AttrValue::Int(dur));
        self.status = SpanStatus::Error { message: String::from_str("Internal Server Error") };
        self.state = SpanState::Failed;
        self.end_nanos = Some(end_nanos);
    }
}

/// Every finalized span carries its duration: on any terminal span the
/// duration attribute is present and equals the non-negative elapsed time
/// between the start and end clock readings.
pub proof fn lemma_terminal_has_duration(s: Span)
    requires
        s.wf(),
        s.terminal(),
    ensures
        s.end_nanos is Some,
        attrs_contains(s.attrs@, "otel.duration_nanos"@),
        s.end_nanos matches Some(e) ==> attrs_value(s.attrs@, "otel.duration_nanos"@)
            == AttrV::Int(duration_of(s.start_nanos, e)),
        s.end_nanos matches Some(e) ==> duration_of(s.start_nanos, e) >= 0,
{
}

} // verus!
