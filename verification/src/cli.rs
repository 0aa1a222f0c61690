//! Command-line options.

use vstd::prelude::*;

verus! {

/// The options a user gives on the command line.
#[derive(Debug)]
pub struct Args {
    /// Run the formatting check.
    pub fmt: bool,
    /// Run the lint check.
    pub clippy: bool,
    /// Run the test suite.
    pub test: bool,
    /// Run the build check.
    pub build: bool,
    /// Disable the default checks (use together with the check flags).
    pub no_default: bool,
    /// Output format name: terminal, json, html, markdown (or md).
    pub format: String,
    /// Quiet mode: errors only.
    pub quiet: bool,
    /// Verbose output.
    pub verbose: bool,
    /// Color mode name: auto, always or never.
    pub color: String,
    /// Path to the project manifest.
    pub manifest_path: Option<String>,
    /// Run the checks on all workspace members.
    pub workspace: bool,
    /// Re-run the checks whenever a source file changes.
    pub watch: bool,
    /// Number of parallel jobs.
    pub jobs: Option<usize>,
    /// Time limit in seconds for each check, when one is given; the
    /// configuration file's applies otherwise.
    pub timeout: Option<u64>,
}

} // verus!
