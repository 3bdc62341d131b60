//! Classification of every stage outcome into a caller-facing response.
//!
//! Compiler and artifact results reach this module as plain captured values;
//! each function here is the decision the pipeline takes at one stage.  A
//! nonzero compiler exit is a caller-attributable compile failure, a nonzero
//! artifact exit a runtime failure, an undecodable output an internal
//! inconsistency; raw stderr travels in `traceback` only for the two
//! caller-attributable classes.

use crate::diagnostics::{
    diag_column, diag_line_number, diag_position_line, extract_error_summary, extract_first_line,
    first_line_of, parse_rust_errors, summary_of, ValidationError,
};
use crate::outcome::{decode_error_message, decode_ok, decode_output, decode_value, TransformOutcome};
use crate::text::lines_of;
use vstd::prelude::*;
use vstd::string::*;

verus! {

/// What the compiler reported: exit status and captured output.
pub struct BuildResult {
    /// The compiler exited with status zero.
    pub success: bool,
    /// Captured standard output.
    pub stdout: String,
    /// Captured standard error.
    pub stderr: String,
}

/// What the built artifact reported: exit status and captured output.
/// Structurally a `BuildResult`, but a nonzero status here is a runtime
/// failure, not a compile failure.
pub struct ExecutionResult {
    /// The artifact exited with status zero.
    pub success: bool,
    /// Captured standard output.
    pub stdout: String,
    /// Captured standard error.
    pub stderr: String,
}

/// The response to a transform request.
pub struct TransformResponse {
    /// Whether the transformation succeeded.
    pub success: bool,
    /// The decoded value, absent when the payload was discarded or on failure.
    pub transformed_event: Option<serde_json::Value>,
    /// Error message when the transformation failed.
    pub error: Option<String>,
    /// Raw compiler or runtime stderr, for the caller-attributable failures.
    pub traceback: Option<String>,
}

/// The response to a validation request.
pub struct ValidationResponse {
    /// Whether the snippet compiled.
    pub valid: bool,
    /// Structured diagnostics when it did not.
    pub errors: Vec<ValidationError>,
}

/// The response to a health probe.
pub struct HealthResponse {
    /// Service status.
    pub status: String,
    /// Identifier of the toolchain this service compiles against.
    pub sdk: String,
}

/// The error message of a compile failure with the given stderr.
pub open spec fn compile_error_text(stderr: Seq<char>) -> Seq<char> {
    "Compilation error: "@ + summary_of(stderr)
}

/// The error message of a runtime failure with the given stderr.
pub open spec fn runtime_error_text(stderr: Seq<char>) -> Seq<char> {
    "Runtime error: "@ + stderr
}

/// A failure response that carries a message and no traceback: used for
/// internal failures, whose details must not leak host state to the caller.
pub fn internal_error_response(message: String) -> (r: TransformResponse)
    ensures
        !r.success,
        r.transformed_event is None,
        r.error matches Some(m) && m@ == message@,
        r.traceback is None,
{
    TransformResponse { success: false, transformed_event: None, error: Some(message), traceback: None }
}

/// The response to a compile failure: a one-line summary for the caller and
/// the full compiler stderr as traceback.
pub fn compile_failure_response(stderr: &str) -> (r: TransformResponse)
    ensures
        !r.success,
        r.transformed_event is None,
        r.error matches Some(m) && m@ == compile_error_text(stderr@),
        r.traceback matches Some(t) && t@ == stderr@,
{
    let summary = extract_error_summary(stderr);
    let msg = String::from_str("Compilation error: ").concat(summary.as_str());
    TransformResponse {
        success: false,
        transformed_event: None,
        error: Some(msg),
        traceback: Some(String::from_str(stderr)),
    }
}

/// The response to a runtime failure of the built artifact.
pub fn runtime_failure_response(stderr: &str) -> (r: TransformResponse)
    ensures
        !r.success,
        r.transformed_event is None,
        r.error matches Some(m) && m@ == runtime_error_text(stderr@),
        r.traceback matches Some(t) && t@ == stderr@,
{
    let msg = String::from_str("Runtime error: ").concat(stderr);
    TransformResponse {
        success: false,
        transformed_event: None,
        error: Some(msg),
        traceback: Some(String::from_str(stderr)),
    }
}

/// The response to a successful, decoded run: a discarded payload leaves the
/// transformed event absent, a produced value is handed back as it came.
pub fn success_response(outcome: TransformOutcome) -> (r: TransformResponse)
    ensures
        r.success,
        r.error is None,
        r.traceback is None,
        outcome is Discarded ==> r.transformed_event is None,
        outcome matches TransformOutcome::Event(v) ==> r.transformed_event == Some(v),
{
    match outcome {
        TransformOutcome::Discarded => TransformResponse {
            success: true,
            transformed_event: None,
            error: None,
            traceback: None,
        },
        TransformOutcome::Event(v) => TransformResponse {
            success: true,
            transformed_event: Some(v),
            error: None,
            traceback: None,
        },
    }
}

/// The decision after the build stage: a zero exit continues the pipeline, a
/// nonzero exit ends it with a compile-failure response.
pub fn transform_build_step(build: &BuildResult) -> (r: Option<TransformResponse>)
    ensures
        build.success ==> r is None,
        !build.success ==> r is Some,
        r matches Some(resp) ==> {
            &&& !resp.success
            &&& resp.transformed_event is None
            &&& resp.error matches Some(m) && m@ == compile_error_text(build.stderr@)
            &&& resp.traceback matches Some(t) && t@ == build.stderr@
        },
{
    if build.success {
        None
    } else {
        Some(compile_failure_response(build.stderr.as_str()))
    }
}

/// The decision after the run stage: a zero exit continues to decoding, a
/// nonzero exit ends the pipeline with a runtime-failure response.
pub fn transform_run_step(run: &ExecutionResult) -> (r: Option<TransformResponse>)
    ensures
        run.success ==> r is None,
        !run.success ==> r is Some,
        r matches Some(resp) ==> {
            &&& !resp.success
            &&& resp.transformed_event is None
            &&& resp.error matches Some(m) && m@ == runtime_error_text(run.stderr@)
            &&& resp.traceback matches Some(t) && t@ == run.stderr@
        },
{
    if run.success {
        None
    } else {
        Some(runtime_failure_response(run.stderr.as_str()))
    }
}

/// The decision after a successful run: decode the artifact's stdout into
/// the final response.
pub fn transform_output_step(stdout: &str) -> (r: TransformResponse)
    ensures
        decode_ok(stdout@) ==> r.success && r.error is None && r.traceback is None && (decode_value(
            stdout@,
        ) is Discarded ==> r.transformed_event is None) && (decode_value(stdout@) matches
            TransformOutcome::Event(v) ==> r.transformed_event == Some(v)),
        !decode_ok(stdout@) ==> !r.success && r.transformed_event is None && r.traceback is None
            && (r.error matches Some(m) && m@ == decode_error_message(stdout@)),
{
    match decode_output(stdout) {
        Ok(outcome) => success_response(outcome),
        Err(m) => internal_error_response(m),
    }
}

/// The response to a validation request, from the check-only build result: a
/// clean check is valid with no diagnostics; a failed check carries the first
/// structured diagnostic, or, when no position could be extracted, a single
/// positionless diagnostic whose message is the first non-empty line of
/// stderr.
pub fn validation_response(check: &BuildResult) -> (r: ValidationResponse)
    ensures
        check.success ==> r.valid && r.errors@.len() == 0,
        !check.success ==> !r.valid,
        diag_position_line(lines_of(check.stderr@)) matches Some(l) ==> check.success || {
            &&& r.errors@.len() == 1
            &&& r.errors@[0].line == diag_line_number(l)
            &&& r.errors@[0].column == diag_column(l)
            &&& r.errors@[0].message@ == summary_of(check.stderr@)
        },
        !check.success && diag_position_line(lines_of(check.stderr@)) is None ==> {
            &&& r.errors@.len() == 1
            &&& r.errors@[0].line is None
            &&& r.errors@[0].column is None
            &&& r.errors@[0].message@ == first_line_of(check.stderr@)
        },
{
    if check.success {
        ValidationResponse { valid: true, errors: Vec::new() }
    } else {
        let mut errors = parse_rust_errors(check.stderr.as_str());
        if errors.len() == 0 {
            let message = extract_first_line(check.stderr.as_str());
            errors.push(ValidationError { line: None, column: None, message });
        }
        ValidationResponse { valid: false, errors }
    }
}

/// The response to a validation request that failed before the check could
/// run: a single diagnostic with the given message and no position.
pub fn validation_internal_error(message: String) -> (r: ValidationResponse)
    ensures
        !r.valid,
        r.errors@.len() == 1,
        r.errors@[0].line is None,
        r.errors@[0].column is None,
        r.errors@[0].message@ == message@,
{
    let mut errors: Vec<ValidationError> = Vec::new();
    errors.push(ValidationError { line: None, column: None, message });
    ValidationResponse { valid: false, errors }
}

/// The response to a health probe.
pub fn health_response() -> (r: HealthResponse)
    ensures
        r.status@ == "healthy"@,
        r.sdk@ == "rust"@,
{
    HealthResponse { status: String::from_str("healthy"), sdk: String::from_str("rust") }
}

} // verus!
