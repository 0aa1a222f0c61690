//! A check that runs a command named in the configuration file.

use super::{
    combined_output, command_view, make_result, output_text, result_is, single_error,
    single_error_list, texts, CheckResult, Checker, CommandSpec,
};
use crate::text::copy_strings;
use crate::config::{Config, CustomCheckConfig};
use crate::text::{owned, push_str};
use std::time::Duration;
use vstd::prelude::*;

verus! {

/// A check defined by a `[devcheck.custom.<name>]` table.
pub struct CustomChecker {
    name: String,
    config: CustomCheckConfig,
}

/// The message that a failed custom check named `name` reports.
pub open spec fn custom_failure(name: Seq<char>) -> Seq<char> {
    "Custom check '"@ + name + "' failed"@
}

impl CustomChecker {
    /// The check's name.
    pub closed spec fn label(self) -> Seq<char> {
        self.name@
    }

    /// The program the check runs.
    pub closed spec fn program(self) -> Seq<char> {
        self.config.command@
    }

    /// The arguments the check passes to its program.
    pub closed spec fn arguments(self) -> Seq<Seq<char>> {
        texts(self.config.args@)
    }

    /// A check named `name` that runs what `config` describes.
    pub fn new(name: String, config: CustomCheckConfig) -> (c: Self)
        ensures
            c.label() == name@,
            c.program() == config.command@,
            c.arguments() == texts(config.args@),
    {
        Self { name, config }
    }
}

impl Checker for CustomChecker {
    fn name(&self) -> (n: &str)
        ensures
            n@ == self.label(),
    {
        self.name.as_str()
    }

    /// The configured command, limited to the run's time limit.
    fn command(&self, config: &Config) -> (c: CommandSpec)
        ensures
            command_view(c) == (self.program(), self.arguments(), Some(config.timeout)),
    {
        CommandSpec {
            program: owned(self.config.command.as_str()),
            args: copy_strings(&self.config.args),
            timeout_secs: Some(config.timeout),
        }
    }

    fn check_result(&self, success: bool, stdout: &[u8], stderr: &[u8], duration: Duration) -> (r:
        CheckResult)
        ensures
            result_is(
                r,
                self.label(),
                success,
                duration,
                output_text(stdout@, stderr@),
                single_error(success, custom_failure(self.label())),
            ),
    {
        let output = combined_output(stdout, stderr);
        let mut message = owned("Custom check '");
        push_str(&mut message, self.name.as_str());
        push_str(&mut message, "' failed");
        let errors = single_error_list(success, message.as_str());
        make_result(self.name.as_str(), success, duration, output, errors)
    }
}

} // verus!
