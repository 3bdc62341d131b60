//! The workspace plan: which files a request's ephemeral workspace holds,
//! and how the compiler and the built artifact are invoked in it.  The plan
//! is pure data — the surrounding process creates the directory, writes the
//! planned files, runs the planned commands, and removes the directory again
//! on every exit path.

use crate::harness::{
    harness_lines_model, join_nl, manifest_model, render_harness, render_manifest,
};
use crate::json::{json_text_of, to_json_text};
use crate::text::lines_of;
use vstd::prelude::*;
use vstd::string::*;

verus! {

/// One file of the workspace plan: a path relative to the workspace root and
/// the contents to write there.
pub struct WorkspaceFile {
    /// Path relative to the workspace root.
    pub path: String,
    /// Contents to write.
    pub contents: String,
}

/// Relative path of the build manifest in a workspace.
pub open spec fn manifest_path() -> Seq<char> {
    "Cargo.toml"@
}

/// Relative path of the payload file the harness reads at run time.
pub open spec fn payload_path() -> Seq<char> {
    "event.json"@
}

/// Relative path of the harness source in a workspace.
pub open spec fn harness_path() -> Seq<char> {
    "src/main.rs"@
}

/// The files of a transform workspace: manifest, payload, harness source.
/// Planning always succeeds: serializing a payload value cannot fail.
pub fn plan_transform_workspace(event: &serde_json::Value, snippet: &str) -> (r: Vec<
    WorkspaceFile,
>)
    ensures
        r@.len() == 3,
        r@[0].path@ == manifest_path(),
        r@[0].contents@ == join_nl(manifest_model()),
        r@[1].path@ == payload_path(),
        r@[1].contents@ == json_text_of(*event),
        r@[2].path@ == harness_path(),
        r@[2].contents@ == join_nl(harness_lines_model(lines_of(snippet@))),
{
    let payload = to_json_text(event);
    let mut files: Vec<WorkspaceFile> = Vec::new();
    files.push(WorkspaceFile { path: String::from_str("Cargo.toml"), contents: render_manifest() });
    files.push(WorkspaceFile { path: String::from_str("event.json"), contents: payload });
    files.push(
        WorkspaceFile { path: String::from_str("src/main.rs"), contents: render_harness(snippet) },
    );
    files
}

/// The files of a validation workspace: manifest and harness source.  No
/// payload file is written: a check-only build never runs the harness.
pub fn plan_validation_workspace(snippet: &str) -> (r: Vec<WorkspaceFile>)
    ensures
        r@.len() == 2,
        r@[0].path@ == manifest_path(),
        r@[0].contents@ == join_nl(manifest_model()),
        r@[1].path@ == harness_path(),
        r@[1].contents@ == join_nl(harness_lines_model(lines_of(snippet@))),
{
    let mut files: Vec<WorkspaceFile> = Vec::new();
    files.push(WorkspaceFile { path: String::from_str("Cargo.toml"), contents: render_manifest() });
    files.push(
        WorkspaceFile { path: String::from_str("src/main.rs"), contents: render_harness(snippet) },
    );
    files
}

/// The program the build stage invokes.
pub fn compiler_program() -> (r: String)
    ensures
        r@ == "cargo"@,
{
    String::from_str("cargo")
}

/// The compiler arguments of the two build modes: a full build produces the
/// runnable artifact, a check-only build only analyses (used by validation).
pub open spec fn build_args_model(check_only: bool) -> Seq<Seq<char>> {
    if check_only {
        seq!["check"@, "--quiet"@]
    } else {
        seq!["build"@, "--release"@, "--quiet"@]
    }
}

/// The compiler arguments for the requested build mode.
pub fn build_args(check_only: bool) -> (r: Vec<String>)
    ensures
        r.deep_view() == build_args_model(check_only),
{
    let mut v: Vec<String> = Vec::new();
    if check_only {
        v.push(String::from_str("check"));
        v.push(String::from_str("--quiet"));
    } else {
        v.push(String::from_str("build"));
        v.push(String::from_str("--release"));
        v.push(String::from_str("--quiet"));
    }
    proof {
        assert(v.deep_view() =~~= build_args_model(check_only));
    }
    v
}

/// Relative path of the artifact a full build leaves in the workspace.
pub fn artifact_path() -> (r: String)
    ensures
        r@ == "target/release/transform"@,
{
    String::from_str("target/release/transform")
}

} // verus!
