//! Parallel quality checks for Rust projects: configuration resolution,
//! command planning, interpretation of command output and report rendering.

pub mod checker;
pub mod cli;
pub mod config;
pub mod error;
pub mod report;
pub mod runner;
pub mod text;
pub mod watch;
