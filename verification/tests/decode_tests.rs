use sdk_harness::outcome::{decode_output, TransformOutcome};
use sdk_harness::workspace::plan_transform_workspace;

fn value(text: &str) -> serde_json::Value {
    serde_json::from_str(text).unwrap()
}

#[test]
fn discard_token_decodes_to_discarded() {
    match decode_output("null\n") {
        Ok(TransformOutcome::Discarded) => {}
        _ => panic!("the discard token must decode to Discarded"),
    }
    match decode_output("  null  ") {
        Ok(TransformOutcome::Discarded) => {}
        _ => panic!("trimming must happen before the token comparison"),
    }
}

#[test]
fn object_output_decodes_to_the_same_value() {
    match decode_output("{\"a\":1,\"b\":[true,\"x\"]}\n") {
        Ok(TransformOutcome::Event(v)) => {
            assert_eq!(v, value("{\"a\":1,\"b\":[true,\"x\"]}"));
        }
        _ => panic!("a JSON object must decode to an event value"),
    }
}

#[test]
fn numeric_output_decodes_to_a_number() {
    // The sampler convention: a bare numeric literal decodes to the JSON
    // number 0.5, not to a string and not to an object.
    match decode_output("0.5\n") {
        Ok(TransformOutcome::Event(v)) => {
            assert!(v.is_number());
            assert_eq!(v.as_f64(), Some(0.5));
            assert_ne!(v, value("\"0.5\""));
        }
        _ => panic!("a bare number must decode to an event value"),
    }
}

#[test]
fn garbage_output_reports_a_parse_failure() {
    match decode_output("thread 'main' panicked") {
        Err(m) => {
            assert!(m.as_str().starts_with("Failed to parse result 'thread 'main' panicked': "));
        }
        Ok(_) => panic!("non-JSON output must not decode"),
    }
}

#[test]
fn serialized_payload_round_trips() {
    // A snippet that returns its input unchanged makes the artifact print
    // the serialized payload; decoding that text gives the payload back.
    let event = value("{\"message\":\"hi\",\"tags\":[\"a\",\"b\"],\"n\":3}");
    let files = plan_transform_workspace(&event, "Some(event)");
    let payload_text = files[1].contents.as_str();
    match decode_output(payload_text) {
        Ok(TransformOutcome::Event(v)) => assert_eq!(v, event),
        _ => panic!("the serialized payload must decode back to the payload"),
    }
}

#[test]
fn null_payload_round_trips_to_discard() {
    // The serialization of a null payload is the discard token itself.
    let event = value("null");
    let files = plan_transform_workspace(&event, "Some(event)");
    match decode_output(files[1].contents.as_str()) {
        Ok(TransformOutcome::Discarded) => {}
        _ => panic!("a null payload serializes to the discard token"),
    }
}

#[test]
fn decoding_is_deterministic() {
    let a = decode_output("{\"k\":1}");
    let b = decode_output("{\"k\":1}");
    match (a, b) {
        (Ok(TransformOutcome::Event(x)), Ok(TransformOutcome::Event(y))) => assert_eq!(x, y),
        _ => panic!("equal outputs must decode alike"),
    }
}
