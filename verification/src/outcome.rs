//! Result decoding: the artifact's stdout is classified into a discard
//! signal or a decoded JSON value.  There is exactly one decode path for
//! both calling conventions: a bare number from the sampler convention is
//! simply a JSON value like any other.

use crate::json::{json_parse_err, json_parsed, parse_json};
use crate::text::{str_eq, trim_ws, trimmed};
use vstd::prelude::*;
use vstd::string::*;

verus! {

/// The decoded result of a successful run: the event was dropped, or a value
/// (an event object, or a numeric rate) was produced.
pub enum TransformOutcome {
    /// The snippet signalled that the payload is to be discarded.
    Discarded,
    /// The snippet produced a value: a kept (possibly modified) event, or a
    /// numeric sample rate.
    Event(serde_json::Value),
}

/// Whether `s` decodes: after trimming it is the discard token or JSON text.
pub open spec fn decode_ok(s: Seq<char>) -> bool {
    trimmed(s) == "null"@ || json_parsed(trimmed(s)) is Some
}

/// What `s` decodes to, when it decodes.
pub open spec fn decode_value(s: Seq<char>) -> TransformOutcome {
    if trimmed(s) == "null"@ {
        TransformOutcome::Discarded
    } else {
        TransformOutcome::Event(json_parsed(trimmed(s)).unwrap())
    }
}

/// The message reported when `s` does not decode.
pub open spec fn decode_error_message(s: Seq<char>) -> Seq<char> {
    "Failed to parse result '"@ + trimmed(s) + "': "@ + json_parse_err(trimmed(s))
}

/// Decode the artifact's stdout: trim it; the literal discard token means
/// the payload was dropped; anything else must parse as one JSON value.
pub fn decode_output(stdout: &str) -> (r: Result<TransformOutcome, String>)
    ensures
        (r is Ok) == decode_ok(stdout@),
        r matches Ok(o) ==> o == decode_value(stdout@),
        r matches Err(m) ==> m@ == decode_error_message(stdout@),
{
    let t = trim_ws(stdout);
    if str_eq(t.as_str(), "null") {
        Ok(TransformOutcome::Discarded)
    } else {
        match parse_json(t.as_str()) {
            Ok(v) => Ok(TransformOutcome::Event(v)),
            Err(m) => {
                let msg = String::from_str("Failed to parse result '").concat(t.as_str()).concat(
                    "': ",
                ).concat(m.as_str());
                proof {
                    assert(msg@ =~= decode_error_message(stdout@));
                }
                Err(msg)
            },
        }
    }
}

} // verus!
