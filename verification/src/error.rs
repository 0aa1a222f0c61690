//! The library's error type.

use crate::text::{decimal, owned, push_decimal, push_str};
use vstd::prelude::*;

verus! {

#[verifier::external_type_specification]
#[verifier::external_body]
pub struct ExIoError(std::io::Error);

/// What can go wrong while preparing or running the checks.
#[derive(Debug)]
pub enum DevCheckError {
    /// The cargo program is not installed.
    CargoNotFound,
    /// A command could not be started.
    ExecutionError { command: String, source: std::io::Error },
    /// A check ran longer than its time limit.
    Timeout { timeout: u64 },
    /// The options or the configuration file are invalid.
    ConfigError(String),
    /// No manifest in the given directory.
    ManifestNotFound(String),
    /// Any other failure, with its message.
    Other(String),
}

/// Text of an I/O error, as its `Display` implementation writes it.
///
/// The text comes from the operating system and is not stated here.
#[verifier::external_body]
fn io_error_text(e: &std::io::Error) -> String {
    e.to_string()
}

/// The message of `e`, for every variant whose message is determined by
/// its fields alone (all but `ExecutionError`, whose message ends with the
/// operating system's description of the failure).
pub open spec fn error_message(e: DevCheckError) -> Seq<char> {
    match e {
        DevCheckError::CargoNotFound => "cargo command not found - please install Rust and cargo"@,
        DevCheckError::ExecutionError { command, source } => "failed to execute "@ + command@
            + ": "@,
        DevCheckError::Timeout { timeout } => "check timed out after "@ + decimal(timeout as nat)
            + " seconds"@,
        DevCheckError::ConfigError(m) => "invalid configuration: "@ + m@,
        DevCheckError::ManifestNotFound(dir) => "Cargo.toml not found in "@ + dir@,
        DevCheckError::Other(m) => m@,
    }
}

impl DevCheckError {
    /// The human-readable message of this error.
    pub fn message(&self) -> (m: String)
        ensures
            self is ExecutionError ==> m@.take(error_message(*self).len() as int) == error_message(
                *self,
            ) && error_message(*self).len() <= m@.len(),
            !(self is ExecutionError) ==> m@ == error_message(*self),
    {
        match self {
            DevCheckError::CargoNotFound => owned(
                "cargo command not found - please install Rust and cargo",
            ),
            DevCheckError::ExecutionError { command, source } => {
                let mut m = owned("failed to execute ");
                push_str(&mut m, command.as_str());
                push_str(&mut m, ": ");
                let ghost head = m@;
                let t = io_error_text(source);
                push_str(&mut m, t.as_str());
                assert(m@.take(head.len() as int) == head);
                m
            },
            DevCheckError::Timeout { timeout } => {
                let mut m = owned("check timed out after ");
                push_decimal(&mut m, *timeout);
                push_str(&mut m, " seconds");
                m
            },
            DevCheckError::ConfigError(detail) => {
                let mut m = owned("invalid configuration: ");
                push_str(&mut m, detail.as_str());
                m
            },
            DevCheckError::ManifestNotFound(dir) => {
                let mut m = owned("Cargo.toml not found in ");
                push_str(&mut m, dir.as_str());
                m
            },
            DevCheckError::Other(detail) => owned(detail.as_str()),
        }
    }
}

} // verus!
