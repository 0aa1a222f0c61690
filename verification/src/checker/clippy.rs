//! The lint check (`cargo clippy`, warnings denied).

use super::{
    cargo_command, combined_output, command_view, make_result, output_text, picked_error_list,
    picked_errors, push_arg, push_args, push_manifest, result_is, texts, with_flag, with_manifest, CheckResult,
    Checker, CommandSpec,
};
use crate::config::{opt_text, Config};
use std::time::Duration;
use vstd::prelude::*;

verus! {

/// Runs the linter with warnings denied.
pub struct ClippyChecker;

/// The arguments given to cargo: `clippy`, `--workspace` when asked, the
/// manifest path when one is given, then `-- -D warnings`, then the extra
/// arguments of the configuration.
pub open spec fn clippy_args(config: Config) -> Seq<Seq<char>> {
    with_manifest(
        with_flag(seq!["clippy"@], config.workspace, "--workspace"@),
        opt_text(config.manifest_path),
    ) + seq!["--"@, "-D"@, "warnings"@] + texts(config.extra_args.clippy@)
}

/// The errors of a failed lint run: its first five output lines that
/// mention `error:` or `warning:`, or a fixed message when there is none.
pub open spec fn clippy_errors(success: bool, output: Seq<char>) -> Seq<Seq<char>> {
    picked_errors(success, output, "error:"@, "warning:"@, 5, "Clippy checks failed"@)
}

impl Checker for ClippyChecker {
    fn name(&self) -> (n: &str)
        ensures
            n@ == "clippy"@,
    {
        "clippy"
    }

    fn command(&self, config: &Config) -> (c: CommandSpec)
        ensures
            command_view(c) == ("cargo"@, clippy_args(*config), Some(config.timeout)),
    {
        let mut args: Vec<String> = Vec::new();
        push_arg(&mut args, "clippy");
        if config.workspace {
            push_arg(&mut args, "--workspace");
        }
        push_manifest(&mut args, &config.manifest_path);
        let ghost before = texts(args@);
        push_arg(&mut args, "--");
        push_arg(&mut args, "-D");
        push_arg(&mut args, "warnings");
        assert(texts(args@) =~= before + seq!["--"@, "-D"@, "warnings"@]);
        push_args(&mut args, &config.extra_args.clippy);
        cargo_command(args, config.timeout)
    }

    fn check_result(&self, success: bool, stdout: &[u8], stderr: &[u8], duration: Duration) -> (r:
        CheckResult)
        ensures
            result_is(
                r,
                "clippy"@,
                success,
                duration,
                output_text(stdout@, stderr@),
                clippy_errors(success, output_text(stdout@, stderr@)),
            ),
    {
        let output = combined_output(stdout, stderr);
        let errors = picked_error_list(success, &output, "error:", "warning:", 5, "Clippy checks failed");
        make_result("clippy", success, duration, output, errors)
    }
}

} // verus!
