use sdk_harness::diagnostics::{extract_error_summary, parse_rust_errors};
use sdk_harness::harness::HARNESS_PREFIX_LINES;

#[test]
fn summary_takes_first_error_line() {
    let stderr = "warning: unused variable\nerror[E0308]: mismatched types\nerror: aborting\n";
    assert_eq!(extract_error_summary(stderr).as_str(), "error[E0308]: mismatched types");
}

#[test]
fn summary_takes_plain_error_line() {
    let stderr = "error: expected one of `!` or `::`, found `fn`\n  --> src/main.rs:63:5\n";
    assert_eq!(
        extract_error_summary(stderr).as_str(),
        "error: expected one of `!` or `::`, found `fn`"
    );
}

#[test]
fn summary_falls_back_to_first_nonblank_line() {
    let stderr = "\n   \nwarning: something went wrong\nmore text\n";
    assert_eq!(extract_error_summary(stderr).as_str(), "warning: something went wrong");
}

#[test]
fn summary_falls_back_to_fixed_message() {
    assert_eq!(extract_error_summary("").as_str(), "Unknown compilation error");
    assert_eq!(extract_error_summary(" \n\t\n").as_str(), "Unknown compilation error");
}

#[test]
fn first_snippet_line_reports_line_one() {
    // An error on the snippet's own first line sits at absolute line
    // HARNESS_PREFIX_LINES + 1 of the harness and must come back as line 1.
    let absolute = HARNESS_PREFIX_LINES + 1;
    let stderr = format!("error: oops --> src/main.rs:{}:9\n", absolute);
    let errors = parse_rust_errors(&stderr);
    assert_eq!(errors.len(), 1);
    assert_eq!(errors[0].line, Some(1));
    assert_eq!(errors[0].column, Some(9));
    assert_eq!(errors[0].message.as_str(), format!("error: oops --> src/main.rs:{}:9", absolute));
}

#[test]
fn marker_on_the_following_line_is_used() {
    // The compiler prints the position marker on the line below the error
    // line; the position must still be found and adjusted.
    let absolute = HARNESS_PREFIX_LINES + 1;
    let stderr = format!(
        "error[E0308]: mismatched types\n  --> src/main.rs:{}:9\n   |\n",
        absolute
    );
    let errors = parse_rust_errors(&stderr);
    assert_eq!(errors.len(), 1);
    assert_eq!(errors[0].line, Some(1));
    assert_eq!(errors[0].column, Some(9));
    assert_eq!(errors[0].message.as_str(), "error[E0308]: mismatched types");
}

#[test]
fn marker_before_the_first_error_line_is_ignored() {
    // Position search starts at the first line that mentions an error.
    let stderr = "note: see --> src/lib.rs:5:1\nerror: bad\n  --> src/main.rs:70:2\n";
    let errors = parse_rust_errors(stderr);
    assert_eq!(errors.len(), 1);
    assert_eq!(errors[0].line, Some(8));
    assert_eq!(errors[0].column, Some(2));
}

#[test]
fn boilerplate_lines_floor_at_zero() {
    // A position inside the injected boilerplate never reports a negative
    // line: it floors at zero.
    let stderr = "error: bad --> src/main.rs:5:1\n";
    let errors = parse_rust_errors(stderr);
    assert_eq!(errors.len(), 1);
    assert_eq!(errors[0].line, Some(0));
    assert_eq!(errors[0].column, Some(1));
}

#[test]
fn missing_column_is_absent() {
    let stderr = "error: bad --> src/main.rs:70\n";
    let errors = parse_rust_errors(stderr);
    assert_eq!(errors.len(), 1);
    assert_eq!(errors[0].line, Some(8));
    assert_eq!(errors[0].column, None);
}

#[test]
fn unparsable_line_number_is_absent() {
    let stderr = "error: bad --> src/main.rs:abc:7\n";
    let errors = parse_rust_errors(stderr);
    assert_eq!(errors.len(), 1);
    assert_eq!(errors[0].line, None);
    assert_eq!(errors[0].column, Some(7));
}

#[test]
fn only_the_first_positioned_error_is_reported() {
    let stderr = "error: first --> src/main.rs:63:1\nerror: second --> src/main.rs:64:2\n";
    let errors = parse_rust_errors(stderr);
    assert_eq!(errors.len(), 1);
    assert_eq!(errors[0].line, Some(1));
    assert_eq!(errors[0].column, Some(1));
    assert_eq!(errors[0].message.as_str(), "error: first --> src/main.rs:63:1");
}

#[test]
fn message_without_position_yields_no_diagnostic() {
    let stderr = "error[E0308]: mismatched types\nsomething else\n";
    let errors = parse_rust_errors(stderr);
    assert_eq!(errors.len(), 0);
}

#[test]
fn diagnostics_are_deterministic() {
    // The same compiler output parses to the same diagnostic, every time.
    let stderr = "error: oops --> src/main.rs:63:9\n";
    let a = parse_rust_errors(stderr);
    let b = parse_rust_errors(stderr);
    assert_eq!(a.len(), b.len());
    assert_eq!(a[0].line, b[0].line);
    assert_eq!(a[0].column, b[0].column);
    assert_eq!(a[0].message.as_str(), b[0].message.as_str());
}
