use sdk_harness::harness::{render_harness, render_manifest, HARNESS_PREFIX_LINES};

#[test]
fn snippet_sits_after_the_fixed_prefix() {
    let rendered = render_harness("Some(event)");
    let lines: Vec<&str> = rendered.lines().collect();
    // This test fails loudly if the template changes without updating the
    // prefix-length constant.
    assert_eq!(lines[HARNESS_PREFIX_LINES], "Some(event)");
    assert_eq!(lines[0], "#![allow(unused_imports)]");
    assert_eq!(lines[HARNESS_PREFIX_LINES - 1], "    let result: TransformResult = (|| {");
    assert_eq!(lines[HARNESS_PREFIX_LINES + 1], "    })().into();");
}

#[test]
fn multi_line_snippet_keeps_line_positions() {
    let rendered = render_harness("let mut e = event;\ne[\"k\"] = serde_json::json!(1);\nSome(e)");
    let lines: Vec<&str> = rendered.lines().collect();
    assert_eq!(lines[HARNESS_PREFIX_LINES], "let mut e = event;");
    assert_eq!(lines[HARNESS_PREFIX_LINES + 1], "e[\"k\"] = serde_json::json!(1);");
    assert_eq!(lines[HARNESS_PREFIX_LINES + 2], "Some(e)");
}

#[test]
fn template_line_count_is_fixed() {
    let rendered = render_harness("0.5");
    // 62 prefix lines, one snippet line, 15 suffix lines.
    assert_eq!(rendered.lines().count(), HARNESS_PREFIX_LINES + 1 + 15);
    assert_eq!(HARNESS_PREFIX_LINES, 62);
}

#[test]
fn template_lines_are_clean() {
    // No template line holds a newline or ends in a carriage return, so the
    // rendered text splits back into exactly the lines it was joined from.
    let rendered = render_harness("x");
    for line in rendered.lines() {
        assert!(!line.contains('\n'));
        assert!(!line.ends_with('\r'));
    }
}

#[test]
fn harness_reads_payload_from_side_file() {
    // The payload is never interpolated into the program text: the harness
    // reads it from the well-known side file at run time.
    let rendered = render_harness("Some(event)");
    assert!(rendered.contains("std::fs::read_to_string(\"event.json\")"));
    assert!(rendered.contains("let result: TransformResult = (|| {"));
    assert!(rendered.contains("TransformResult::SampleRate(rate)"));
    assert!(rendered.ends_with("}\n"));
}

#[test]
fn manifest_declares_the_harness_dependencies() {
    let manifest = render_manifest();
    let lines: Vec<&str> = manifest.lines().collect();
    assert_eq!(lines[0], "[package]");
    assert_eq!(lines[1], "name = \"transform\"");
    assert!(lines.contains(&"[dependencies]"));
    assert!(lines.contains(&"serde_json = \"1.0\""));
    assert!(lines.contains(&"serde = { version = \"1.0\", features = [\"derive\"] }"));
}
