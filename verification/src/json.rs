//! The JSON boundary: payloads travel through this crate as opaque
//! `serde_json::Value`s, and the only operations on them — parsing text and
//! rendering text — are made by `serde_json` behind the trusted items below.
//! Both are deterministic functions of their argument alone (this build uses
//! the default object representation, whose key order is fixed), so their
//! results carry uninterpreted names that the rest of the crate reasons with.

use crate::text::trimmed;
use vstd::prelude::*;

verus! {

#[verifier::external_type_specification]
#[verifier::external_body]
pub struct ExValue(serde_json::Value);

/// What `serde_json::from_str::<Value>` yields on `s`: the parsed value, or
/// nothing when `s` is not a JSON document.
pub uninterp spec fn json_parsed(s: Seq<char>) -> Option<serde_json::Value>;

/// The message `serde_json::from_str::<Value>` reports when `s` does not
/// parse.
pub uninterp spec fn json_parse_err(s: Seq<char>) -> Seq<char>;

/// The text `serde_json::to_string` renders a value as.
pub uninterp spec fn json_text_of(v: serde_json::Value) -> Seq<char>;

/// Whether the rendered text of `v` parses back to `v`.  The writer renders
/// arbitrarily deep nesting, but the reader enforces a recursion limit, so
/// this holds of values within that limit — in particular of every value the
/// reader itself produced.
pub uninterp spec fn json_reparsable(v: serde_json::Value) -> bool;

/// Relies on `serde_json::from_str::<Value>`: a deterministic parse of JSON
/// text, and on the `Display` of its error, a deterministic description of
/// why the text did not parse.  A value the reader yields lies within its
/// own recursion limit, so its rendered text parses back.
#[verifier::external_body]
pub(crate) fn parse_json(s: &str) -> (r: Result<serde_json::Value, String>)
    ensures
        (r is Ok) == (json_parsed(s@) is Some),
        r matches Ok(v) ==> json_parsed(s@) == Some(v),
        r matches Ok(v) ==> json_reparsable(v),
        r matches Err(m) ==> m@ == json_parse_err(s@),
{
    match serde_json::from_str::<serde_json::Value>(s) {
        Ok(v) => Ok(v),
        Err(e) => Err(e.to_string()),
    }
}

/// Relies on `serde_json::to_string` on a `Value`: it cannot fail (its only
/// error sources are a failing `Serialize` impl or a non-string map key,
/// and a `Value` has neither), and it renders deterministic, compact text
/// without surrounding whitespace.  The text parses back to the same value
/// when the value's nesting is within the reader's recursion limit.
#[verifier::external_body]
pub(crate) fn to_json_text(v: &serde_json::Value) -> (t: String)
    ensures
        t@ == json_text_of(*v),
        json_reparsable(*v) ==> json_parsed(t@) == Some(*v),
        trimmed(t@) == t@ && t@.len() > 0,
{
    match serde_json::to_string(v) {
        Ok(t) => t,
        // Serializing a Value cannot fail: this arm is unreachable.
        Err(_) => String::new(),
    }
}

} // verus!
