//! Per-request correlation identifiers: accepted from an inbound header when
//! present and non-empty, otherwise freshly generated. The generated form is
//! restricted to a safe token alphabet so that writing it into a response
//! header cannot fail.
use vstd::prelude::*;

use crate::headers::{spec_header_get, HeaderExtractor};
use crate::propagation::{all_hex_lower, is_hex_lower};
use crate::request::RequestInfo;

verus! {

/// A character of the identifier token alphabet: a lowercase hexadecimal
/// digit or a hyphen.
pub open spec fn is_token_char(c: char) -> bool {
    is_hex_lower(c) || c == '-'
}

/// A freshly generated correlation identifier: 36 characters, lowercase
/// hexadecimal digits with hyphens at positions 8, 13, 18 and 23.
pub open spec fn is_fresh_request_id(s: Seq<char>) -> bool {
    &&& s.len() == 36
    &&& forall|i: int| 0 <= i < 36 ==> #[trigger] is_token_char(s[i])
    &&& s[8] == '-' && s[13] == '-' && s[18] == '-' && s[23] == '-'
}

/// Relies on `uuid::Uuid::new_v4` and its hyphenated `Display` form: a
/// random 128-bit identifier rendered as 36 characters — 32 lowercase
/// hexadecimal digits with hyphens at positions 8, 13, 18 and 23.
/// `new_v4` draws from the operating system's randomness source and aborts
/// the process if that source fails; no input can avoid that environmental
/// failure.
#[verifier::external_body]
pub fn generate_request_id() -> (r: String)
    ensures
        is_fresh_request_id(r@),
{
    uuid::Uuid::new_v4().to_string()
}

/// Relies on `uuid::Uuid::new_v4` and its simple (hyphen-free) form: 32
/// lowercase hexadecimal digits; position 12 carries the version digit `4`,
/// so the identifier is never all zeros. As in [`generate_request_id`], the
/// call aborts the process if the operating system's randomness source
/// fails.
#[verifier::external_body]
pub(crate) fn fresh_trace_id() -> (r: String)
    ensures
        r@.len() == 32,
        all_hex_lower(r@),
        r@[12] == '4',
{
    uuid::Uuid::new_v4().simple().to_string()
}

/// The value of `key` when it is present and non-empty.
pub open spec fn spec_nonempty_header(
    hs: Seq<(Seq<char>, Seq<char>)>,
    key: Seq<char>,
) -> Option<Seq<char>> {
    match spec_header_get(hs, key) {
        Some(v) => if v.len() > 0 {
            Some(v)
        } else {
            None
        },
        None => None,
    }
}

/// Correlation-id resolution: a non-empty inbound `x-request-id` is accepted
/// verbatim; else a non-empty `request-id`; else the given fresh identifier.
pub open spec fn spec_resolve_request_id(
    hs: Seq<(Seq<char>, Seq<char>)>,
    fresh: Seq<char>,
) -> Seq<char> {
    match spec_nonempty_header(hs, "x-request-id"@) {
        Some(v) => v,
        None => match spec_nonempty_header(hs, "request-id"@) {
            Some(v) => v,
            None => fresh,
        },
    }
}

/// Correlation-id idempotence: when the inbound request carries a non-empty
/// `x-request-id` header, the resolved identifier is exactly that value,
/// whatever fresh identifier would otherwise have been generated.
pub proof fn lemma_request_id_idempotent(
    hs: Seq<(Seq<char>, Seq<char>)>,
    fresh: Seq<char>,
    v: Seq<char>,
)
    requires
        spec_header_get(hs, "x-request-id"@) == Some(v),
        v.len() > 0,
    ensures
        spec_resolve_request_id(hs, fresh) == v,
{
}

/// Resolves the correlation id from the inbound headers, taking `fresh` as
/// the identifier to use when no inbound header supplies one.
pub fn resolve_request_id(headers: &HeaderExtractor, fresh: String) -> (r: String)
    ensures
        r@ == spec_resolve_request_id(headers@, fresh@),
{
    match headers.get("x-request-id") {
        Some(v) => {
            if !v.as_str().is_empty() {
                return v.clone();
            }
        },
        None => (),
    }
    match headers.get("request-id") {
        Some(v) => {
            if !v.as_str().is_empty() {
                return v.clone();
            }
        },
        None => (),
    }
    fresh
}

/// Resolves the per-request correlation id: a non-empty inbound
/// `x-request-id` wins, then a non-empty `request-id`, else a fresh
/// identifier is generated.
pub fn get_request_id(req: &RequestInfo) -> (r: String)
    ensures
        spec_nonempty_header(req.headers@, "x-request-id"@) matches Some(v) ==> r@ == v,
        spec_nonempty_header(req.headers@, "x-request-id"@) is None ==> (match spec_nonempty_header(
            req.headers@,
            "request-id"@,
        ) {
            Some(v) => r@ == v,
            None => is_fresh_request_id(r@),
        }),
        r@.len() > 0,
{
    let fresh = generate_request_id();
    resolve_request_id(&req.headers, fresh)
}

} // verus!
