//! Verified core of a snippet-execution service.
//!
//! A caller submits a short snippet of code together with a JSON payload.
//! The service embeds the snippet in a fixed harness program, compiles it in
//! an ephemeral workspace, runs the artifact, and decodes its output into a
//! transformed payload, a discard signal, or a numeric rate.
//!
//! This crate holds the logic of that pipeline: rendering the harness and the
//! workspace file plan, parsing compiler diagnostics back to snippet-relative
//! line numbers, decoding artifact output, and classifying every failure mode
//! into a structured response.  The surrounding I/O (HTTP routes, filesystem,
//! subprocesses) lives outside the crate and hands plain values in and out.

pub mod diagnostics;
pub mod harness;
pub mod json;
pub mod laws;
pub mod outcome;
pub mod response;
pub mod text;
pub mod workspace;
