use sdk_harness::workspace::{
    artifact_path, build_args, compiler_program, plan_transform_workspace,
    plan_validation_workspace,
};

#[test]
fn transform_plan_holds_manifest_payload_and_harness() {
    let event: serde_json::Value = serde_json::from_str("{\"id\":7}").unwrap();
    let files = plan_transform_workspace(&event, "Some(event)");
    assert_eq!(files.len(), 3);
    assert_eq!(files[0].path.as_str(), "Cargo.toml");
    assert!(files[0].contents.as_str().starts_with("[package]\n"));
    assert_eq!(files[1].path.as_str(), "event.json");
    assert_eq!(files[1].contents.as_str(), serde_json::to_string(&event).unwrap());
    assert_eq!(files[2].path.as_str(), "src/main.rs");
    assert!(files[2].contents.as_str().contains("Some(event)"));
}

#[test]
fn payload_is_never_interpolated_into_source() {
    // The payload text reaches the workspace only as the side file, not
    // inside the harness source.
    let event: serde_json::Value =
        serde_json::from_str("{\"marker\":\"a-very-unlikely-string\"}").unwrap();
    let files = plan_transform_workspace(&event, "Some(event)");
    assert!(files[1].contents.as_str().contains("a-very-unlikely-string"));
    assert!(!files[2].contents.as_str().contains("a-very-unlikely-string"));
}

#[test]
fn validation_plan_skips_the_payload() {
    let files = plan_validation_workspace("event");
    assert_eq!(files.len(), 2);
    assert_eq!(files[0].path.as_str(), "Cargo.toml");
    assert_eq!(files[1].path.as_str(), "src/main.rs");
    assert!(files[1].contents.as_str().contains("event"));
}

#[test]
fn build_modes_have_their_arguments() {
    let full: Vec<String> = build_args(false);
    assert_eq!(full, vec!["build", "--release", "--quiet"]);
    let check: Vec<String> = build_args(true);
    assert_eq!(check, vec!["check", "--quiet"]);
    assert_eq!(compiler_program().as_str(), "cargo");
    assert_eq!(artifact_path().as_str(), "target/release/transform");
}
