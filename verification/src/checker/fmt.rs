//! The formatting check (`cargo fmt` in check mode).

use super::{
    cargo_command, combined_output, command_view, make_result, output_text, push_arg,
    push_args, push_manifest, texts, result_is, single_error, single_error_list, with_flag, with_manifest,
    CheckResult, Checker, CommandSpec,
};
use crate::config::{opt_text, Config};
use std::time::Duration;
use vstd::prelude::*;

verus! {

/// Checks that the sources are formatted, without changing them.
pub struct FmtChecker;

/// The arguments given to cargo: `fmt`, `--all` when the whole workspace is
/// checked, the manifest path when one is given, then `-- --check`, then
/// the extra arguments of the configuration.
pub open spec fn fmt_args(config: Config) -> Seq<Seq<char>> {
    with_manifest(with_flag(seq!["fmt"@], config.workspace, "--all"@), opt_text(config.manifest_path))
        + seq!["--"@, "--check"@] + texts(config.extra_args.fmt@)
}

impl Checker for FmtChecker {
    fn name(&self) -> (n: &str)
        ensures
            n@ == "fmt"@,
    {
        "fmt"
    }

    fn command(&self, config: &Config) -> (c: CommandSpec)
        ensures
            command_view(c) == ("cargo"@, fmt_args(*config), Some(config.timeout)),
    {
        let mut args: Vec<String> = Vec::new();
        push_arg(&mut args, "fmt");
        if config.workspace {
            push_arg(&mut args, "--all");
        }
        push_manifest(&mut args, &config.manifest_path);
        let ghost before = texts(args@);
        push_arg(&mut args, "--");
        push_arg(&mut args, "--check");
        assert(texts(args@) =~= before + seq!["--"@, "--check"@]);
        push_args(&mut args, &config.extra_args.fmt);
        cargo_command(args, config.timeout)
    }

    fn check_result(&self, success: bool, stdout: &[u8], stderr: &[u8], duration: Duration) -> (r:
        CheckResult)
        ensures
            result_is(
                r,
                "fmt"@,
                success,
                duration,
                output_text(stdout@, stderr@),
                single_error(success, "Formatting check failed"@),
            ),
    {
        let output = combined_output(stdout, stderr);
        let errors = single_error_list(success, "Formatting check failed");
        make_result("fmt", success, duration, output, errors)
    }
}

} // verus!
