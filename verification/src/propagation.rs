//! Context propagation: decoding an upstream trace context from the request
//! headers and encoding one into an outgoing carrier.
//!
//! The encoding is the `traceparent` header form
//! `vv-tttttttttttttttttttttttttttttttt-ssssssssssssssss-ff`: a two-digit
//! version, a 32-digit trace id, a 16-digit parent span id and two flag
//! digits, all lowercase hex. A malformed value — wrong length, bad digits,
//! an all-zero trace or span id, or the reserved version `ff` — is treated
//! exactly like an absent one: extraction degrades to "no parent" and never
//! fails the request.
use vstd::prelude::*;

use crate::headers::{spec_header_get, spec_headers_set, HeaderExtractor};

verus! {

/// A lowercase hexadecimal digit.
pub open spec fn is_hex_lower(c: char) -> bool {
    ('0' <= c && c <= '9') || ('a' <= c && c <= 'f')
}

/// Exec mirror of [`is_hex_lower`].
pub fn is_hex_lower_c(c: char) -> (r: bool)
    ensures
        r == is_hex_lower(c),
{
    let u = c as u32;
    (48 <= u && u <= 57) || (97 <= u && u <= 102)
}

/// The numeric value of a lowercase hexadecimal digit.
pub open spec fn hex_val(c: char) -> int {
    if '0' <= c && c <= '9' {
        c as int - 48
    } else {
        c as int - 87
    }
}

/// Every character in `s` is a lowercase hexadecimal digit.
pub open spec fn all_hex_lower(s: Seq<char>) -> bool {
    forall|i: int| 0 <= i < s.len() ==> is_hex_lower(s[i])
}

/// Every character in `s` is the digit zero.
pub open spec fn all_zero(s: Seq<char>) -> bool {
    forall|i: int| 0 <= i < s.len() ==> s[i] == '0'
}

/// A well-formed `traceparent` value: the separators in place, all fields
/// lowercase hex, the version not the reserved `ff`, and neither the trace
/// id nor the span id all zeros.
pub open spec fn valid_traceparent(s: Seq<char>) -> bool {
    &&& s.len() == 55
    &&& s[2] == '-'
    &&& s[35] == '-'
    &&& s[52] == '-'
    &&& all_hex_lower(s.subrange(0, 2))
    &&& !(s[0] == 'f' && s[1] == 'f')
    &&& all_hex_lower(s.subrange(3, 35))
    &&& !all_zero(s.subrange(3, 35))
    &&& all_hex_lower(s.subrange(36, 52))
    &&& !all_zero(s.subrange(36, 52))
    &&& all_hex_lower(s.subrange(53, 55))
}

/// The trace-id field of a well-formed `traceparent` value.
pub open spec fn tp_trace_id(s: Seq<char>) -> Seq<char> {
    s.subrange(3, 35)
}

/// The span-id field of a well-formed `traceparent` value.
pub open spec fn tp_span_id(s: Seq<char>) -> Seq<char> {
    s.subrange(36, 52)
}

/// The sampling decision: the lowest bit of the flags field.
pub open spec fn tp_sampled(s: Seq<char>) -> bool {
    hex_val(s[54]) % 2 == 1
}

/// The trace context extracted from a request: either no parent (the span
/// will be a trace root) or the upstream parent's identifiers.
#[derive(Debug, PartialEq, Eq)]
pub enum TraceContext {
    Root,
    Parent { trace_id: String, span_id: String, sampled: bool },
}

/// The mathematical value of a [`TraceContext`].
pub enum CtxV {
    Root,
    Parent { trace_id: Seq<char>, span_id: Seq<char>, sampled: bool },
}

impl View for TraceContext {
    type V = CtxV;

    open spec fn view(&self) -> CtxV {
        match self {
            TraceContext::Root => CtxV::Root,
            TraceContext::Parent { trace_id, span_id, sampled } => CtxV::Parent {
                trace_id: trace_id@,
                span_id: span_id@,
                sampled: *sampled,
            },
        }
    }
}

/// The context that a header set carries: the decoded parent if a
/// well-formed `traceparent` entry is present, and no parent otherwise.
pub open spec fn spec_extract(hs: Seq<(Seq<char>, Seq<char>)>) -> CtxV {
    match spec_header_get(hs, "traceparent"@) {
        Some(v) => if valid_traceparent(v) {
            CtxV::Parent { trace_id: tp_trace_id(v), span_id: tp_span_id(v), sampled: tp_sampled(v) }
        } else {
            CtxV::Root
        },
        None => CtxV::Root,
    }
}

fn all_hex_range(s: &str, from: usize, to: usize) -> (r: bool)
    requires
        from <= to <= s@.len(),
    ensures
        r == all_hex_lower(s@.subrange(from as int, to as int)),
{
    let mut i = from;
    while i < to
        invariant
            from <= i <= to <= s@.len(),
            forall|j: int| from <= j < i ==> is_hex_lower(s@[j]),
        decreases to - i,
    {
        if !is_hex_lower_c(s.get_char(i)) {
            proof {
                assert(s@.subrange(from as int, to as int)[i - from] == s@[i as int]);
            }
            return false;
        }
        i = i + 1;
    }
    proof {
        assert forall|k: int| 0 <= k < to - from implies is_hex_lower(
            s@.subrange(from as int, to as int)[k],
        ) by {
            assert(s@.subrange(from as int, to as int)[k] == s@[from + k]);
        }
    }
    true
}

fn any_nonzero(s: &str, from: usize, to: usize) -> (r: bool)
    requires
        from <= to <= s@.len(),
    ensures
        r == !all_zero(s@.subrange(from as int, to as int)),
{
    let mut i = from;
    while i < to
        invariant
            from <= i <= to <= s@.len(),
            forall|j: int| from <= j < i ==> s@[j] == '0',
        decreases to - i,
    {
        if s.get_char(i) != '0' {
            proof {
                assert(s@.subrange(from as int, to as int)[i - from] == s@[i as int]);
            }
            return true;
        }
        i = i + 1;
    }
    proof {
        assert forall|k: int| 0 <= k < to - from implies s@.subrange(from as int, to as int)[k]
            == '0' by {
            assert(s@.subrange(from as int, to as int)[k] == s@[from + k]);
        }
    }
    false
}

/// Checks a candidate `traceparent` value against the grammar.
pub fn is_valid_traceparent(s: &str) -> (r: bool)
    ensures
        r == valid_traceparent(s@),
{
    let n = s.unicode_len();
    if n != 55 {
        return false;
    }
    if s.get_char(2) != '-' || s.get_char(35) != '-' || s.get_char(52) != '-' {
        return false;
    }
    if !all_hex_range(s, 0, 2) {
        return false;
    }
    if s.get_char(0) == 'f' && s.get_char(1) == 'f' {
        return false;
    }
    if !all_hex_range(s, 3, 35) {
        return false;
    }
    if !any_nonzero(s, 3, 35) {
        return false;
    }
    if !all_hex_range(s, 36, 52) {
        return false;
    }
    if !any_nonzero(s, 36, 52) {
        return false;
    }
    if !all_hex_range(s, 53, 55) {
        return false;
    }
    true
}

fn hex_val_c(c: char) -> (r: u32)
    requires
        is_hex_lower(c),
    ensures
        r as int == hex_val(c),
{
    let u = c as u32;
    if u <= 57 {
        u - 48
    } else {
        u - 87
    }
}

/// Decodes the upstream trace context from the request headers. Absent or
/// malformed propagation data yields no parent; extraction never fails.
pub fn extract(headers: &HeaderExtractor) -> (r: TraceContext)
    ensures
        r@ == spec_extract(headers@),
{
    match headers.get("traceparent") {
        Some(v) => {
            let vs = v.as_str();
            if is_valid_traceparent(vs) {
                let trace_id = vs.substring_char(3, 35).to_owned();
                let span_id = vs.substring_char(36, 52).to_owned();
                let flag = vs.get_char(54);
                proof {
                    assert(vs@.subrange(53, 55)[1] == vs@[54]);
                }
                let sampled = hex_val_c(flag) % 2 == 1;
                TraceContext::Parent { trace_id, span_id, sampled }
            } else {
                TraceContext::Root
            }
        },
        None => TraceContext::Root,
    }
}

/// The canonical `traceparent` encoding of a parent context.
pub open spec fn spec_traceparent(tid: Seq<char>, sid: Seq<char>, sampled: bool) -> Seq<char> {
    "00-"@ + tid + "-"@ + sid + (if sampled {
        "-01"@
    } else {
        "-00"@
    })
}

/// Propagation round trip: injecting a parent context with well-formed
/// identifiers writes a well-formed `traceparent` value whose decoded fields
/// are the context's own — a downstream hop that extracts the header sees
/// exactly the injected trace id, span id and sampling decision.
pub proof fn lemma_inject_extract_roundtrip(tid: Seq<char>, sid: Seq<char>, sampled: bool)
    requires
        tid.len() == 32,
        all_hex_lower(tid),
        !all_zero(tid),
        sid.len() == 16,
        all_hex_lower(sid),
        !all_zero(sid),
    ensures
        valid_traceparent(spec_traceparent(tid, sid, sampled)),
        tp_trace_id(spec_traceparent(tid, sid, sampled)) == tid,
        tp_span_id(spec_traceparent(tid, sid, sampled)) == sid,
        tp_sampled(spec_traceparent(tid, sid, sampled)) == sampled,
{
    reveal_strlit("00-");
    reveal_strlit("-");
    reveal_strlit("-01");
    reveal_strlit("-00");
    let s = spec_traceparent(tid, sid, sampled);
    assert(s.len() == 55);
    assert(s[0] == '0' && s[1] == '0' && s[2] == '-');
    assert(s[35] == '-');
    assert(s[52] == '-');
    assert forall|i: int| 0 <= i < 32 implies s[3 + i] == tid[i] by {}
    assert(tp_trace_id(s) =~= tid);
    assert forall|i: int| 0 <= i < 16 implies s[36 + i] == sid[i] by {}
    assert(tp_span_id(s) =~= sid);
    assert(s[53] == '0');
    assert(s[54] == (if sampled { '1' } else { '0' }));
    assert(all_hex_lower(s.subrange(0, 2)));
    assert(all_hex_lower(s.subrange(3, 35)));
    assert(all_hex_lower(s.subrange(36, 52)));
    assert(all_hex_lower(s.subrange(53, 55)));
    let w = choose|i: int| 0 <= i < 32 && tid[i] != '0';
    assert(tp_trace_id(s)[w] != '0');
    assert(!all_zero(s.subrange(3, 35)));
    let w2 = choose|i: int| 0 <= i < 16 && sid[i] != '0';
    assert(tp_span_id(s)[w2] != '0');
    assert(!all_zero(s.subrange(36, 52)));
}

/// Writes the context into an outgoing carrier under `traceparent`. A root
/// context carries nothing, so nothing is written.
pub fn inject(ctx: &TraceContext, carrier: &mut HeaderExtractor)
    ensures
        match ctx@ {
            CtxV::Parent { trace_id, span_id, sampled } => final(carrier)@ == spec_headers_set(
                old(carrier)@,
                "traceparent"@,
                spec_traceparent(trace_id, span_id, sampled),
            ),
            CtxV::Root => final(carrier)@ == old(carrier)@,
        },
{
    match ctx {
        TraceContext::Parent { trace_id, span_id, sampled } => {
            let v = String::from_str("00-").concat(trace_id.as_str()).concat("-").concat(
                span_id.as_str(),
            ).concat(if *sampled {
                "-01"
            } else {
                "-00"
            });
            carrier.set(String::from_str("traceparent"), v);
        },
        TraceContext::Root => (),
    }
}

} // verus!
