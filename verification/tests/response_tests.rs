use sdk_harness::response::{
    health_response, transform_build_step, transform_output_step, transform_run_step,
    validation_internal_error, validation_response, BuildResult, ExecutionResult,
};
use sdk_harness::harness::HARNESS_PREFIX_LINES;

fn build(success: bool, stderr: &str) -> BuildResult {
    BuildResult { success, stdout: String::new(), stderr: stderr.to_string() }
}

fn run(success: bool, stderr: &str) -> ExecutionResult {
    ExecutionResult { success, stdout: String::new(), stderr: stderr.to_string() }
}

#[test]
fn successful_build_continues_the_pipeline() {
    assert!(transform_build_step(&build(true, "")).is_none());
    assert!(transform_run_step(&run(true, "")).is_none());
}

#[test]
fn compile_failure_is_isolated() {
    // A failed compile yields success: false, a summarized error, the full
    // stderr as traceback, and no transformed event.
    let stderr = "error[E0308]: mismatched types\n  --> src/main.rs:63:9\n";
    let resp = transform_build_step(&build(false, stderr)).unwrap();
    assert!(!resp.success);
    assert!(resp.transformed_event.is_none());
    assert_eq!(
        resp.error.as_deref(),
        Some("Compilation error: error[E0308]: mismatched types")
    );
    assert_eq!(resp.traceback.as_deref(), Some(stderr));
}

#[test]
fn runtime_failure_is_distinct_from_compile_failure() {
    let stderr = "thread 'main' panicked at src/main.rs:63:9\n";
    let resp = transform_run_step(&run(false, stderr)).unwrap();
    assert!(!resp.success);
    assert!(resp.transformed_event.is_none());
    assert_eq!(
        resp.error.as_deref(),
        Some("Runtime error: thread 'main' panicked at src/main.rs:63:9\n")
    );
    assert_eq!(resp.traceback.as_deref(), Some(stderr));
}

#[test]
fn discarded_outcome_omits_the_event() {
    // Discard semantics: the artifact printed the discard token, the caller
    // gets success with no transformed event and no error.
    let resp = transform_output_step("null\n");
    assert!(resp.success);
    assert!(resp.transformed_event.is_none());
    assert!(resp.error.is_none());
    assert!(resp.traceback.is_none());
}

#[test]
fn decoded_value_is_handed_back() {
    let resp = transform_output_step("{\"a\":1}\n");
    assert!(resp.success);
    let expected: serde_json::Value = serde_json::from_str("{\"a\":1}").unwrap();
    assert_eq!(resp.transformed_event, Some(expected));
    assert!(resp.error.is_none());
}

#[test]
fn numeric_value_is_handed_back_as_a_number() {
    let resp = transform_output_step("0.5\n");
    assert!(resp.success);
    let v = resp.transformed_event.unwrap();
    assert_eq!(v.as_f64(), Some(0.5));
}

#[test]
fn undecodable_output_is_an_internal_failure() {
    let resp = transform_output_step("not json at all");
    assert!(!resp.success);
    assert!(resp.transformed_event.is_none());
    assert!(resp.error.unwrap().starts_with("Failed to parse result 'not json at all': "));
    assert!(resp.traceback.is_none());
}

#[test]
fn clean_check_is_valid() {
    let resp = validation_response(&build(true, ""));
    assert!(resp.valid);
    assert!(resp.errors.is_empty());
}

#[test]
fn failed_check_reports_the_adjusted_line() {
    let absolute = HARNESS_PREFIX_LINES + 1;
    let stderr = format!("error: oops --> src/main.rs:{}:5\n", absolute);
    let resp = validation_response(&build(false, &stderr));
    assert!(!resp.valid);
    assert_eq!(resp.errors.len(), 1);
    assert_eq!(resp.errors[0].line, Some(1));
    assert_eq!(resp.errors[0].column, Some(5));
}

#[test]
fn failed_check_finds_the_marker_below_the_error_line() {
    // Ordinary compiler output: the error line, then the position marker on
    // the next line.  The position is extracted and adjusted.
    let absolute = HARNESS_PREFIX_LINES + 1;
    let stderr = format!(
        "error[E0308]: mismatched types\n  --> src/main.rs:{}:9\n",
        absolute
    );
    let resp = validation_response(&build(false, &stderr));
    assert!(!resp.valid);
    assert_eq!(resp.errors.len(), 1);
    assert_eq!(resp.errors[0].line, Some(1));
    assert_eq!(resp.errors[0].column, Some(9));
    assert_eq!(resp.errors[0].message.as_str(), "error[E0308]: mismatched types");
}

#[test]
fn failed_check_without_position_reports_the_first_nonempty_line() {
    // No position marker anywhere: the fallback diagnostic carries the
    // first non-empty line of stderr — here a warning line that precedes
    // the error line — and no position.
    let stderr = "warning: unused variable `x`\nerror: aborting due to previous error\n";
    let resp = validation_response(&build(false, stderr));
    assert!(!resp.valid);
    assert_eq!(resp.errors.len(), 1);
    assert_eq!(resp.errors[0].line, None);
    assert_eq!(resp.errors[0].column, None);
    assert_eq!(resp.errors[0].message.as_str(), "warning: unused variable `x`");
}

#[test]
fn blank_check_stderr_falls_back_to_the_fixed_message() {
    let resp = validation_response(&build(false, " \n"));
    assert!(!resp.valid);
    assert_eq!(resp.errors.len(), 1);
    assert_eq!(resp.errors[0].message.as_str(), "Unknown compilation error");
}

#[test]
fn validation_internal_error_has_no_position() {
    let resp = validation_internal_error("Validation service error: disk full".to_string());
    assert!(!resp.valid);
    assert_eq!(resp.errors.len(), 1);
    assert_eq!(resp.errors[0].line, None);
    assert_eq!(resp.errors[0].message.as_str(), "Validation service error: disk full");
}

#[test]
fn responses_are_idempotent() {
    // Equal captured outputs produce equal responses, field by field.
    let stderr = "error: boom\n";
    let a = transform_build_step(&build(false, stderr)).unwrap();
    let b = transform_build_step(&build(false, stderr)).unwrap();
    assert_eq!(a.success, b.success);
    assert_eq!(a.transformed_event, b.transformed_event);
    assert_eq!(a.error, b.error);
    assert_eq!(a.traceback, b.traceback);
    let x = transform_output_step("{\"n\":2}");
    let y = transform_output_step("{\"n\":2}");
    assert_eq!(x.success, y.success);
    assert_eq!(x.transformed_event, y.transformed_event);
    assert_eq!(x.error, y.error);
}

#[test]
fn health_names_the_toolchain() {
    let h = health_response();
    assert_eq!(h.status.as_str(), "healthy");
    assert_eq!(h.sdk.as_str(), "rust");
}
