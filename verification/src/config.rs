//! Resolution of the effective configuration from the command-line options
//! and the `.devcheck.toml` configuration file.

use crate::cli::Args;
use crate::error::DevCheckError;
use crate::text::{copy_strings, owned, push_str, same_text, texts};
use std::time::Instant;
use vstd::prelude::*;

verus! {

#[verifier::external_type_specification]
#[verifier::external_body]
pub struct ExInstant(Instant);

/// The effective configuration of one run.
#[derive(Debug)]
pub struct Config {
    pub run_fmt: bool,
    pub run_clippy: bool,
    pub run_test: bool,
    pub run_build: bool,
    pub format: OutputFormat,
    pub quiet: bool,
    pub verbose: bool,
    pub color: ColorMode,
    pub manifest_path: Option<String>,
    /// Reserved for controlling the parallelism.
    pub jobs: Option<usize>,
    pub timeout: u64,
    pub workspace: bool,
    pub watch: bool,
    /// The extra arguments that each built-in check passes to cargo.
    pub extra_args: ExtraArgs,
    /// The custom checks of the configuration file, by name.
    pub custom_checks: Vec<(String, CustomCheckConfig)>,
    pub start_time: Instant,
}

/// The extra arguments of each built-in check, appended to its cargo
/// command.
#[derive(Debug)]
pub struct ExtraArgs {
    pub fmt: Vec<String>,
    pub clippy: Vec<String>,
    pub test: Vec<String>,
    pub build: Vec<String>,
}

/// How the report is written.
#[derive(Debug, Clone, Copy, PartialEq, Eq, Structural)]
pub enum OutputFormat {
    Terminal,
    Json,
    Html,
    Markdown,
}

/// Whether the terminal report is colored.
#[derive(Debug, Clone, Copy, PartialEq, Eq, Structural)]
pub enum ColorMode {
    Auto,
    Always,
    Never,
}

/// The configuration file (`.devcheck.toml`).
#[derive(Debug, Clone)]
pub struct ConfigFile {
    pub devcheck: DevCheckConfig,
}

/// The `[devcheck]` table of the configuration file.
#[derive(Debug, Clone)]
pub struct DevCheckConfig {
    pub timeout: u64,
    pub parallel: bool,
    pub fmt: CheckConfig,
    pub clippy: CheckConfig,
    pub test: CheckConfig,
    pub build: CheckConfig,
    /// The custom checks, by name; a name occurs once.
    pub custom: Vec<(String, CustomCheckConfig)>,
}

/// The table of one built-in check.
#[derive(Debug, Clone)]
pub struct CheckConfig {
    pub enabled: bool,
    pub args: Vec<String>,
}

/// The table of one custom check.
#[derive(Debug, Clone)]
pub struct CustomCheckConfig {
    pub command: String,
    pub enabled: bool,
    pub args: Vec<String>,
}

/// The time limit in seconds that a configuration file without one gets.
pub fn default_timeout() -> (t: u64)
    ensures
        t == 300,
{
    300
}

/// The value of a flag that the configuration file leaves out.
pub fn default_true() -> (b: bool)
    ensures
        b,
{
    true
}

impl Default for CheckConfig {
    /// An enabled check without extra arguments.
    fn default() -> (c: Self)
        ensures
            c.enabled,
            c.args@.len() == 0,
    {
        CheckConfig { enabled: true, args: Vec::new() }
    }
}

impl Default for DevCheckConfig {
    /// The configuration in force when there is no configuration file:
    /// formatting, lint and tests on, build off, no custom check.
    fn default() -> (c: Self)
        ensures
            c.timeout == 300,
            c.parallel,
            c.fmt.enabled && c.fmt.args@.len() == 0,
            c.clippy.enabled && c.clippy.args@.len() == 0,
            c.test.enabled && c.test.args@.len() == 0,
            !c.build.enabled && c.build.args@.len() == 0,
            c.custom@.len() == 0,
    {
        DevCheckConfig {
            timeout: 300,
            parallel: true,
            fmt: CheckConfig::default(),
            clippy: CheckConfig::default(),
            test: CheckConfig::default(),
            build: CheckConfig { enabled: false, args: Vec::new() },
            custom: Vec::new(),
        }
    }
}

/// The output format that a format name selects, if any.
pub open spec fn format_named(name: Seq<char>) -> Option<OutputFormat> {
    if name == "terminal"@ {
        Some(OutputFormat::Terminal)
    } else if name == "json"@ {
        Some(OutputFormat::Json)
    } else if name == "html"@ {
        Some(OutputFormat::Html)
    } else if name == "markdown"@ || name == "md"@ {
        Some(OutputFormat::Markdown)
    } else {
        None
    }
}

/// The color mode that a color name selects, if any.
pub open spec fn color_named(name: Seq<char>) -> Option<ColorMode> {
    if name == "auto"@ {
        Some(ColorMode::Auto)
    } else if name == "always"@ {
        Some(ColorMode::Always)
    } else if name == "never"@ {
        Some(ColorMode::Never)
    } else {
        None
    }
}

/// Some check is named explicitly on the command line.
pub open spec fn any_check_flag(args: Args) -> bool {
    args.fmt || args.clippy || args.test || args.build
}

/// Which checks run, as (fmt, clippy, test, build): the checks named on
/// the command line when some is named or the defaults are disabled, the
/// checks that the configuration file enables otherwise.
pub open spec fn selected_checks(args: Args, file: DevCheckConfig) -> (bool, bool, bool, bool) {
    if args.no_default || any_check_flag(args) {
        (args.fmt, args.clippy, args.test, args.build)
    } else {
        (file.fmt.enabled, file.clippy.enabled, file.test.enabled, file.build.enabled)
    }
}

/// The time limit: the command line's when one is given there, the
/// configuration file's otherwise.
pub open spec fn chosen_timeout(args_timeout: Option<u64>, file_timeout: u64) -> u64 {
    match args_timeout {
        Some(t) => t,
        None => file_timeout,
    }
}

/// The text of an optional string.
pub open spec fn opt_text(o: Option<String>) -> Option<Seq<char>> {
    match o {
        Some(s) => Some(s@),
        None => None,
    }
}

/// A custom check's table as plain values: its name, command, whether it
/// is enabled and its arguments.
pub open spec fn custom_entry(e: (String, CustomCheckConfig)) -> (Seq<char>, Seq<char>, bool, Seq<Seq<char>>) {
    (e.0@, e.1.command@, e.1.enabled, texts(e.1.args@))
}

/// The custom checks as plain values.
pub open spec fn customs_view(v: Seq<(String, CustomCheckConfig)>) -> Seq<(Seq<char>, Seq<char>, bool, Seq<Seq<char>>)> {
    v.map_values(|e: (String, CustomCheckConfig)| custom_entry(e))
}

/// Some entry of `s` is named `n`.
pub open spec fn name_in(s: Seq<(Seq<char>, Seq<char>, bool, Seq<Seq<char>>)>, n: Seq<char>) -> bool {
    exists|i: int| 0 <= i < s.len() && (#[trigger] s[i]).0 == n
}

/// No two entries of `s` have the same name.
pub open spec fn distinct_names(s: Seq<(Seq<char>, Seq<char>, bool, Seq<Seq<char>>)>) -> bool {
    forall|i: int, j: int| 0 <= i < j < s.len() ==> (#[trigger] s[i]).0 != (#[trigger] s[j]).0
}

/// The entries of `s`, each name kept at its first entry only.
pub open spec fn first_of_each(s: Seq<(Seq<char>, Seq<char>, bool, Seq<Seq<char>>)>) -> Seq<
    (Seq<char>, Seq<char>, bool, Seq<Seq<char>>),
>
    decreases s.len(),
{
    if s.len() == 0 {
        seq![]
    } else {
        let r = first_of_each(s.drop_last());
        if name_in(s.drop_last(), s.last().0) {
            r
        } else {
            r.push(s.last())
        }
    }
}

/// Keeping the first entry of each name keeps every name and repeats none.
pub proof fn lemma_first_of_each(s: Seq<(Seq<char>, Seq<char>, bool, Seq<Seq<char>>)>)
    ensures
        distinct_names(first_of_each(s)),
        forall|n: Seq<char>| name_in(first_of_each(s), n) <==> name_in(s, n),
    decreases s.len(),
{
    if s.len() > 0 {
        let init = s.drop_last();
        lemma_first_of_each(init);
        let r = first_of_each(init);
        assert forall|n: Seq<char>| name_in(s, n) <==> (name_in(init, n) || s.last().0 == n) by {
            if name_in(s, n) {
                let i = choose|i: int| 0 <= i < s.len() && (#[trigger] s[i]).0 == n;
                if i < init.len() {
                    assert(init[i] == s[i]);
                }
            }
            if name_in(init, n) {
                let i = choose|i: int| 0 <= i < init.len() && (#[trigger] init[i]).0 == n;
                assert(s[i] == init[i]);
            }
            if s.last().0 == n {
                assert(s[s.len() - 1] == s.last());
            }
        }
        if !name_in(init, s.last().0) {
            let t = r.push(s.last());
            assert forall|n: Seq<char>| name_in(t, n) <==> (name_in(r, n) || s.last().0 == n) by {
                if name_in(t, n) {
                    let i = choose|i: int| 0 <= i < t.len() && (#[trigger] t[i]).0 == n;
                    if i < r.len() {
                        assert(r[i] == t[i]);
                    }
                }
                if name_in(r, n) {
                    let i = choose|i: int| 0 <= i < r.len() && (#[trigger] r[i]).0 == n;
                    assert(t[i] == r[i]);
                }
                if s.last().0 == n {
                    assert(t[t.len() - 1] == s.last());
                }
            }
            assert forall|i: int, j: int| 0 <= i < j < t.len() implies (#[trigger] t[i]).0 != (
            #[trigger] t[j]).0 by {
                if j < r.len() {
                    assert(t[i] == r[i] && t[j] == r[j]);
                } else {
                    assert(t[i] == r[i]);
                    if r[i].0 == s.last().0 {
                        assert(name_in(r, s.last().0));
                    }
                }
            }
        }
    }
}

/// `x` holds the extra arguments that the check tables of `file` give.
pub open spec fn extra_args_from(x: ExtraArgs, file: DevCheckConfig) -> bool {
    &&& texts(x.fmt@) == texts(file.fmt.args@)
    &&& texts(x.clippy@) == texts(file.clippy.args@)
    &&& texts(x.test@) == texts(file.test.args@)
    &&& texts(x.build@) == texts(file.build.args@)
}

/// `a` and `b` are the same configuration, but perhaps for when it started.
pub open spec fn same_settings(a: Config, b: Config) -> bool {
    &&& a.run_fmt == b.run_fmt
    &&& a.run_clippy == b.run_clippy
    &&& a.run_test == b.run_test
    &&& a.run_build == b.run_build
    &&& a.format == b.format
    &&& a.quiet == b.quiet
    &&& a.verbose == b.verbose
    &&& a.color == b.color
    &&& opt_text(a.manifest_path) == opt_text(b.manifest_path)
    &&& a.jobs == b.jobs
    &&& a.timeout == b.timeout
    &&& a.workspace == b.workspace
    &&& a.watch == b.watch
    &&& texts(a.extra_args.fmt@) == texts(b.extra_args.fmt@)
    &&& texts(a.extra_args.clippy@) == texts(b.extra_args.clippy@)
    &&& texts(a.extra_args.test@) == texts(b.extra_args.test@)
    &&& texts(a.extra_args.build@) == texts(b.extra_args.build@)
    &&& customs_view(a.custom_checks@) == customs_view(b.custom_checks@)
}

/// `c` is the configuration that `args` and `file` give, started at `start`.
pub open spec fn resolved_from(
    c: Config,
    args: Args,
    file: DevCheckConfig,
    start: Instant,
) -> bool {
    let sel = selected_checks(args, file);
    &&& c.run_fmt == sel.0
    &&& c.run_clippy == sel.1
    &&& c.run_test == sel.2
    &&& c.run_build == sel.3
    &&& format_named(args.format@) == Some(c.format)
    &&& color_named(args.color@) == Some(c.color)
    &&& c.quiet == args.quiet
    &&& c.verbose == args.verbose
    &&& opt_text(c.manifest_path) == opt_text(args.manifest_path)
    &&& c.jobs == args.jobs
    &&& c.timeout == chosen_timeout(args.timeout, file.timeout)
    &&& c.workspace == args.workspace
    &&& c.watch == args.watch
    &&& extra_args_from(c.extra_args, file)
    &&& customs_view(c.custom_checks@) == first_of_each(customs_view(file.custom@))
    &&& c.start_time == start
}

/// The output format named `name`.
pub fn parse_format(name: &str) -> (r: Option<OutputFormat>)
    ensures
        r == format_named(name@),
{
    if same_text(name, "terminal") {
        Some(OutputFormat::Terminal)
    } else if same_text(name, "json") {
        Some(OutputFormat::Json)
    } else if same_text(name, "html") {
        Some(OutputFormat::Html)
    } else if same_text(name, "markdown") || same_text(name, "md") {
        Some(OutputFormat::Markdown)
    } else {
        None
    }
}

/// The color mode named `name`.
pub fn parse_color(name: &str) -> (r: Option<ColorMode>)
    ensures
        r == color_named(name@),
{
    if same_text(name, "auto") {
        Some(ColorMode::Auto)
    } else if same_text(name, "always") {
        Some(ColorMode::Always)
    } else if same_text(name, "never") {
        Some(ColorMode::Never)
    } else {
        None
    }
}

/// The program that performs the built-in checks, whose presence on the
/// search path a run requires.
pub fn cargo_program() -> (p: &'static str)
    ensures
        p@ == "cargo"@,
{
    "cargo"
}

/// `which::which`: whether an executable named `name` is found on the
/// search path.  The answer depends on the environment and the file
/// system, so nothing is stated of it.
#[verifier::external_body]
fn program_on_path(name: &str) -> bool {
    which::which(name).is_ok()
}

/// `Instant::now`: the current instant, of which nothing is stated.
#[verifier::external_body]
fn instant_now() -> Instant {
    Instant::now()
}

/// A copy of an optional string.
fn copy_opt(o: &Option<String>) -> (r: Option<String>)
    ensures
        opt_text(r) == opt_text(*o),
{
    match o {
        Some(s) => Some(owned(s.as_str())),
        None => None,
    }
}

/// A copy of a custom check's table.
pub fn copy_custom_config(c: &CustomCheckConfig) -> (r: CustomCheckConfig)
    ensures
        r.command@ == c.command@,
        r.enabled == c.enabled,
        texts(r.args@) == texts(c.args@),
{
    CustomCheckConfig {
        command: owned(c.command.as_str()),
        enabled: c.enabled,
        args: copy_strings(&c.args),
    }
}

/// A copy of the custom checks.
pub fn copy_customs(v: &Vec<(String, CustomCheckConfig)>) -> (r: Vec<(String, CustomCheckConfig)>)
    ensures
        customs_view(r@) == customs_view(v@),
{
    let mut r: Vec<(String, CustomCheckConfig)> = Vec::new();
    let mut i: usize = 0;
    while i < v.len()
        invariant
            i <= v@.len(),
            customs_view(r@) == customs_view(v@.take(i as int)),
        decreases v@.len() - i,
    {
        let e = (owned(v[i].0.as_str()), copy_custom_config(&v[i].1));
        r.push(e);
        assert(customs_view(v@.take(i + 1)) =~= customs_view(v@.take(i as int)).push(
            custom_entry(v@[i as int]),
        ));
        assert(customs_view(r@) =~= customs_view(v@.take(i + 1)));
        i = i + 1;
    }
    assert(v@.take(v@.len() as int) =~= v@);
    r
}

/// The custom checks `v`, each name kept at its first entry only.
pub fn first_entries(v: &Vec<(String, CustomCheckConfig)>) -> (r: Vec<(String, CustomCheckConfig)>)
    ensures
        customs_view(r@) == first_of_each(customs_view(v@)),
        distinct_names(customs_view(r@)),
{
    let ghost cv = customs_view(v@);
    let mut r: Vec<(String, CustomCheckConfig)> = Vec::new();
    let mut i: usize = 0;
    while i < v.len()
        invariant
            cv == customs_view(v@),
            i <= v@.len(),
            customs_view(r@) == first_of_each(cv.take(i as int)),
        decreases v@.len() - i,
    {
        let mut seen = false;
        let mut j: usize = 0;
        while j < i
            invariant
                cv == customs_view(v@),
                j <= i < v@.len(),
                seen == exists|k: int| 0 <= k < j && (#[trigger] cv[k]).0 == cv[i as int].0,
            decreases i - j,
        {
            let same = same_text(v[j].0.as_str(), v[i].0.as_str());
            proof {
                assert(cv[j as int] == custom_entry(v@[j as int]));
                assert(cv[i as int] == custom_entry(v@[i as int]));
                assert(same == (cv[j as int].0 == cv[i as int].0));
            }
            if same {
                seen = true;
            }
            j = j + 1;
        }
        let ghost before = cv.take(i as int);
        let ghost after = cv.take(i + 1);
        proof {
            assert(after.drop_last() =~= before);
            assert(after.last() == cv[i as int]);
            if seen {
                let k = choose|k: int| 0 <= k < i && (#[trigger] cv[k]).0 == cv[i as int].0;
                assert(before[k] == cv[k]);
                assert(name_in(before, cv[i as int].0));
            } else {
                if name_in(before, cv[i as int].0) {
                    let k = choose|k: int| 0 <= k < before.len() && (#[trigger] before[k]).0 == cv[i as int].0;
                    assert(cv[k] == before[k]);
                }
            }
        }
        if !seen {
            let e = (owned(v[i].0.as_str()), copy_custom_config(&v[i].1));
            r.push(e);
            assert(customs_view(r@) =~= first_of_each(before).push(cv[i as int]));
        }
        i = i + 1;
    }
    assert(cv.take(v@.len() as int) =~= cv);
    proof {
        lemma_first_of_each(cv);
    }
    r
}

impl Config {
    /// The same configuration, started at `start_time`: what watch mode
    /// runs its checks with after a change.
    pub fn restarted_at(&self, start_time: Instant) -> (r: Config)
        ensures
            same_settings(r, *self),
            r.start_time == start_time,
    {
        Config {
            run_fmt: self.run_fmt,
            run_clippy: self.run_clippy,
            run_test: self.run_test,
            run_build: self.run_build,
            format: self.format,
            quiet: self.quiet,
            verbose: self.verbose,
            color: self.color,
            manifest_path: copy_opt(&self.manifest_path),
            jobs: self.jobs,
            timeout: self.timeout,
            workspace: self.workspace,
            watch: self.watch,
            extra_args: ExtraArgs {
                fmt: copy_strings(&self.extra_args.fmt),
                clippy: copy_strings(&self.extra_args.clippy),
                test: copy_strings(&self.extra_args.test),
                build: copy_strings(&self.extra_args.build),
            },
            custom_checks: copy_customs(&self.custom_checks),
            start_time,
        }
    }

    /// The same configuration, started now.
    pub fn restarted(&self) -> (r: Config)
        ensures
            same_settings(r, *self),
    {
        let now = instant_now();
        self.restarted_at(now)
    }

    /// The configuration that the options `args` and the configuration file
    /// `config_file` give, where `cargo_found` tells whether the cargo
    /// program is installed and `start_time` is when the run starts.
    ///
    /// An unknown format name is refused first, then an unknown color name,
    /// then a missing cargo program.
    pub fn resolve(args: &Args, config_file: ConfigFile, cargo_found: bool, start_time: Instant) -> (r:
        Result<Config, DevCheckError>)
        ensures
            format_named(args.format@) is None ==> (r matches Err(DevCheckError::ConfigError(m))
                && m@ == "invalid format: "@ + args.format@),
            format_named(args.format@) is Some && color_named(args.color@) is None ==> (r matches Err(
                DevCheckError::ConfigError(m),
            ) && m@ == "invalid color mode: "@ + args.color@),
            format_named(args.format@) is Some && color_named(args.color@) is Some && !cargo_found
                ==> r matches Err(DevCheckError::CargoNotFound),
            format_named(args.format@) is Some && color_named(args.color@) is Some && cargo_found
                ==> (r matches Ok(c) && resolved_from(c, *args, config_file.devcheck, start_time)),
    {
        let ConfigFile { devcheck } = config_file;
        let DevCheckConfig { timeout: file_timeout, parallel: _, fmt, clippy, test, build, custom } =
            devcheck;
        let (run_fmt, run_clippy, run_test, run_build) = if args.no_default {
            (args.fmt, args.clippy, args.test, args.build)
        } else if args.fmt || args.clippy || args.test || args.build {
            (args.fmt, args.clippy, args.test, args.build)
        } else {
            (fmt.enabled, clippy.enabled, test.enabled, build.enabled)
        };
        let format = match parse_format(args.format.as_str()) {
            Some(f) => f,
            None => {
                let mut m = owned("invalid format: ");
                push_str(&mut m, args.format.as_str());
                return Err(DevCheckError::ConfigError(m));
            },
        };
        let color = match parse_color(args.color.as_str()) {
            Some(c) => c,
            None => {
                let mut m = owned("invalid color mode: ");
                push_str(&mut m, args.color.as_str());
                return Err(DevCheckError::ConfigError(m));
            },
        };
        if !cargo_found {
            return Err(DevCheckError::CargoNotFound);
        }
        let timeout = match args.timeout {
            Some(t) => t,
            None => file_timeout,
        };
        Ok(
            Config {
                run_fmt,
                run_clippy,
                run_test,
                run_build,
                format,
                quiet: args.quiet,
                verbose: args.verbose,
                color,
                manifest_path: copy_opt(&args.manifest_path),
                jobs: args.jobs,
                timeout,
                workspace: args.workspace,
                watch: args.watch,
                extra_args: ExtraArgs {
                    fmt: fmt.args,
                    clippy: clippy.args,
                    test: test.args,
                    build: build.args,
                },
                custom_checks: first_entries(&custom),
                start_time,
            },
        )
    }

    /// The configuration that the options `args` and the configuration file
    /// `config_file` give, checking that the program `cargo_program` names
    /// is on the search path and starting the clock.  Its errors are those of `resolve`; whether cargo is found is
    /// up to the environment.
    pub fn from_args(args: &Args, config_file: ConfigFile) -> (r: Result<Config, DevCheckError>)
        ensures
            format_named(args.format@) is None ==> (r matches Err(DevCheckError::ConfigError(m))
                && m@ == "invalid format: "@ + args.format@),
            format_named(args.format@) is Some && color_named(args.color@) is None ==> (r matches Err(
                DevCheckError::ConfigError(m),
            ) && m@ == "invalid color mode: "@ + args.color@),
            format_named(args.format@) is Some && color_named(args.color@) is Some ==> ((r matches Err(
                DevCheckError::CargoNotFound,
            )) || (r matches Ok(c) && resolved_from(c, *args, config_file.devcheck, c.start_time))),
    {
        let cargo_found = program_on_path(cargo_program());
        let start_time = instant_now();
        Self::resolve(args, config_file, cargo_found, start_time)
    }
}

/// No two custom checks of a resolved configuration share a name, and
/// every name of the configuration file's custom checks is kept.
pub proof fn lemma_custom_names_kept_once(c: Config, args: Args, file: DevCheckConfig, start: Instant)
    requires
        resolved_from(c, args, file, start),
    ensures
        distinct_names(customs_view(c.custom_checks@)),
        forall|n: Seq<char>|
            name_in(customs_view(c.custom_checks@), n) <==> name_in(customs_view(file.custom@), n),
{
    lemma_first_of_each(customs_view(file.custom@));
}

/// A configuration started anew is still the one that the options and the
/// configuration file give, at its new start.
pub proof fn lemma_restart_keeps_resolution(
    c: Config,
    r: Config,
    args: Args,
    file: DevCheckConfig,
    start: Instant,
)
    requires
        resolved_from(c, args, file, start),
        same_settings(r, c),
    ensures
        resolved_from(r, args, file, r.start_time),
{
}

/// Checks named on the command line are exactly the checks that run,
/// whatever the configuration file enables.
pub proof fn lemma_named_checks_win(args: Args, file: DevCheckConfig)
    requires
        any_check_flag(args),
    ensures
        selected_checks(args, file) == (args.fmt, args.clippy, args.test, args.build),
{
}

/// With the default checks disabled and no check named, nothing runs.
pub proof fn lemma_no_default_runs_nothing(args: Args, file: DevCheckConfig)
    requires
        args.no_default,
        !any_check_flag(args),
    ensures
        selected_checks(args, file) == (false, false, false, false),
{
}

/// Without check flags and with the defaults kept, a resolved
/// configuration runs each built-in check exactly when the configuration
/// file enables it; with check flags or the defaults disabled, exactly the
/// checks named on the command line run.
pub proof fn lemma_file_enables_checks(c: Config, args: Args, file: DevCheckConfig, start: Instant)
    requires
        resolved_from(c, args, file, start),
    ensures
        !args.no_default && !args.fmt && !args.clippy && !args.test && !args.build ==> (c.run_fmt
            == file.fmt.enabled && c.run_clippy == file.clippy.enabled && c.run_test
            == file.test.enabled && c.run_build == file.build.enabled),
        args.no_default || args.fmt || args.clippy || args.test || args.build ==> (c.run_fmt
            == args.fmt && c.run_clippy == args.clippy && c.run_test == args.test && c.run_build
            == args.build),
{
}

/// Without check flags, the configuration file decides; the configuration
/// in force without a file runs formatting, lint and tests, but no build.
pub proof fn lemma_default_selection(args: Args, file: DevCheckConfig)
    requires
        !args.no_default,
        !any_check_flag(args),
        file.fmt.enabled,
        file.clippy.enabled,
        file.test.enabled,
        !file.build.enabled,
    ensures
        selected_checks(args, file) == (true, true, true, false),
{
}

/// A time limit given on the command line wins, whatever its value;
/// without one, the configuration file's applies.
pub proof fn lemma_timeout_precedence(args_timeout: Option<u64>, file_timeout: u64)
    ensures
        args_timeout matches Some(t) ==> chosen_timeout(args_timeout, file_timeout) == t,
        args_timeout is None ==> chosen_timeout(args_timeout, file_timeout) == file_timeout,
{
}

} // verus!
