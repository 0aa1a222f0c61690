//! The build check (`cargo build`).

use super::{
    cargo_command, combined_output, command_view, make_result, output_text, push_arg, push_args, texts,
    push_manifest, result_is, single_error, single_error_list, with_flag, with_manifest,
    CheckResult, Checker, CommandSpec,
};
use crate::config::{opt_text, Config};
use std::time::Duration;
use vstd::prelude::*;

verus! {

/// Builds the project.
pub struct BuildChecker;

/// The arguments given to cargo: `build`, `--workspace` when asked, then
/// the manifest path when one is given, then the extra arguments of the
/// configuration.
pub open spec fn build_args(config: Config) -> Seq<Seq<char>> {
    with_manifest(
        with_flag(seq!["build"@], config.workspace, "--workspace"@),
        opt_text(config.manifest_path),
    ) + texts(config.extra_args.build@)
}

impl Checker for BuildChecker {
    fn name(&self) -> (n: &str)
        ensures
            n@ == "build"@,
    {
        "build"
    }

    fn command(&self, config: &Config) -> (c: CommandSpec)
        ensures
            command_view(c) == ("cargo"@, build_args(*config), Some(config.timeout)),
    {
        let mut args: Vec<String> = Vec::new();
        push_arg(&mut args, "build");
        if config.workspace {
            push_arg(&mut args, "--workspace");
        }
        push_manifest(&mut args, &config.manifest_path);
        push_args(&mut args, &config.extra_args.build);
        cargo_command(args, config.timeout)
    }

    fn check_result(&self, success: bool, stdout: &[u8], stderr: &[u8], duration: Duration) -> (r:
        CheckResult)
        ensures
            result_is(
                r,
                "build"@,
                success,
                duration,
                output_text(stdout@, stderr@),
                single_error(success, "Build failed"@),
            ),
    {
        let output = combined_output(stdout, stderr);
        let errors = single_error_list(success, "Build failed");
        make_result("build", success, duration, output, errors)
    }
}

} // verus!
