use devcheck::checker::{
    combined_output, BuildChecker, CheckStatus, Checker, ClippyChecker, CustomChecker, FmtChecker,
    TestChecker,
};
use devcheck::cli::Args;
use devcheck::config::{Config, ConfigFile, CustomCheckConfig, DevCheckConfig};
use std::time::Duration;

fn config(workspace: bool, manifest: Option<&str>, timeout: u64) -> Config {
    let args = Args {
        fmt: false,
        clippy: false,
        test: false,
        build: false,
        no_default: false,
        format: "terminal".to_string(),
        quiet: false,
        verbose: false,
        color: "auto".to_string(),
        manifest_path: manifest.map(|m| m.to_string()),
        workspace,
        watch: false,
        jobs: None,
        timeout: Some(timeout),
    };
    Config::resolve(&args, ConfigFile { devcheck: DevCheckConfig::default() }, true, std::time::Instant::now())
        .expect("valid options")
}

fn strs(v: &[&str]) -> Vec<String> {
    v.iter().map(|s| s.to_string()).collect()
}

#[test]
fn checker_names() {
    assert_eq!(FmtChecker.name(), "fmt");
    assert_eq!(ClippyChecker.name(), "clippy");
    assert_eq!(TestChecker.name(), "test");
    assert_eq!(BuildChecker.name(), "build");
}

#[test]
fn clippy_command() {
    let c = ClippyChecker.command(&config(false, None, 300));
    assert_eq!(c.program, "cargo");
    assert_eq!(c.args, strs(&["clippy", "--", "-D", "warnings"]));
    assert_eq!(c.timeout_secs, Some(300));
    let c = ClippyChecker.command(&config(true, Some("a/Cargo.toml"), 300));
    assert_eq!(
        c.args,
        strs(&["clippy", "--workspace", "--manifest-path", "a/Cargo.toml", "--", "-D", "warnings"])
    );
}

#[test]
fn test_and_build_commands() {
    let cfg = config(true, Some("x/Cargo.toml"), 300);
    assert_eq!(
        TestChecker.command(&cfg).args,
        strs(&["test", "--workspace", "--manifest-path", "x/Cargo.toml"])
    );
    assert_eq!(
        BuildChecker.command(&cfg).args,
        strs(&["build", "--workspace", "--manifest-path", "x/Cargo.toml"])
    );
    let plain = config(false, None, 300);
    assert_eq!(TestChecker.command(&plain).args, strs(&["test"]));
    assert_eq!(BuildChecker.command(&plain).args, strs(&["build"]));
}

#[test]
fn fmt_command() {
    assert_eq!(FmtChecker.command(&config(false, None, 300)).args, strs(&["fmt", "--", "--check"]));
    assert_eq!(
        FmtChecker.command(&config(true, Some("m"), 300)).args,
        strs(&["fmt", "--all", "--manifest-path", "m", "--", "--check"])
    );
}

fn config_with_args(timeout: u64) -> Config {
    let mut file = DevCheckConfig::default();
    file.fmt.args = strs(&["--verbose"]);
    file.clippy.args = strs(&["-W", "clippy::pedantic"]);
    file.test.args = strs(&["--all-features"]);
    file.build.args = strs(&["--release"]);
    let args = Args {
        fmt: false,
        clippy: false,
        test: false,
        build: false,
        no_default: false,
        format: "terminal".to_string(),
        quiet: false,
        verbose: false,
        color: "auto".to_string(),
        manifest_path: Some("p/Cargo.toml".to_string()),
        workspace: false,
        watch: false,
        jobs: None,
        timeout: Some(timeout),
    };
    Config::resolve(&args, ConfigFile { devcheck: file }, true, std::time::Instant::now())
        .expect("valid options")
}

#[test]
fn configured_arguments_are_appended() {
    let cfg = config_with_args(120);
    let t = TestChecker.command(&cfg);
    assert_eq!(t.args, strs(&["test", "--manifest-path", "p/Cargo.toml", "--all-features"]));
    assert_eq!(t.timeout_secs, Some(120));
    assert_eq!(
        BuildChecker.command(&cfg).args,
        strs(&["build", "--manifest-path", "p/Cargo.toml", "--release"])
    );
    assert_eq!(
        ClippyChecker.command(&cfg).args,
        strs(&["clippy", "--manifest-path", "p/Cargo.toml", "--", "-D", "warnings", "-W", "clippy::pedantic"])
    );
    assert_eq!(
        FmtChecker.command(&cfg).args,
        strs(&["fmt", "--manifest-path", "p/Cargo.toml", "--", "--check", "--verbose"])
    );
}

#[test]
fn built_in_checks_carry_the_time_limit() {
    let cfg = config(false, None, 7);
    assert_eq!(FmtChecker.command(&cfg).timeout_secs, Some(7));
    assert_eq!(ClippyChecker.command(&cfg).timeout_secs, Some(7));
    assert_eq!(TestChecker.command(&cfg).timeout_secs, Some(7));
    assert_eq!(BuildChecker.command(&cfg).timeout_secs, Some(7));
}

#[test]
fn passing_check_has_no_errors() {
    for r in [
        ClippyChecker.check_result(true, b"warning: x\n", b"", Duration::from_millis(5)),
        TestChecker.check_result(true, b"test a ... FAILED\n", b"", Duration::from_millis(5)),
        BuildChecker.check_result(true, b"", b"", Duration::from_millis(5)),
        FmtChecker.check_result(true, b"", b"", Duration::from_millis(5)),
    ] {
        assert_eq!(r.status, CheckStatus::Passed);
        assert!(r.errors.is_empty());
        assert_eq!(r.duration, Duration::from_millis(5));
    }
}

#[test]
fn clippy_picks_error_and_warning_lines() {
    let out = b"Checking x\nwarning: unused variable\n  --> src/lib.rs\nerror: aborting\n";
    let r = ClippyChecker.check_result(false, out, b"", Duration::from_secs(1));
    assert_eq!(r.name, "clippy");
    assert_eq!(r.status, CheckStatus::Failed);
    assert_eq!(r.errors, strs(&["warning: unused variable", "error: aborting"]));
    assert_eq!(r.output, String::from_utf8_lossy(out));
}

#[test]
fn clippy_keeps_at_most_five_lines() {
    let out = "error: 1\nerror: 2\nwarning: 3\nerror: 4\nerror: 5\nerror: 6\n";
    let r = ClippyChecker.check_result(false, b"", out.as_bytes(), Duration::ZERO);
    assert_eq!(r.errors, strs(&["error: 1", "error: 2", "warning: 3", "error: 4", "error: 5"]));
}

#[test]
fn clippy_fallback_message() {
    let r = ClippyChecker.check_result(false, b"nothing useful", b"", Duration::ZERO);
    assert_eq!(r.errors, strs(&["Clippy checks failed"]));
}

#[test]
fn test_picks_failed_tests_trimmed() {
    let out = "running 2 tests\n    test a::b ... FAILED  \r\ntest c ... ok\nFAILED test x\nFAILED test\n";
    let r = TestChecker.check_result(false, out.as_bytes(), b"", Duration::ZERO);
    assert_eq!(r.errors, strs(&["a::b"]));
}

#[test]
fn test_reports_failed_test_names() {
    let out = "running 2 tests\ntest tests::test_foo ... FAILED\ntest tests::test_bar ... FAILED\n\nfailures:\n    tests::test_foo\n\ntest result: FAILED. 0 passed; 2 failed\n";
    let r = TestChecker.check_result(false, out.as_bytes(), b"", Duration::from_secs(1));
    assert_eq!(r.name, "test");
    assert_eq!(r.status, CheckStatus::Failed);
    assert_eq!(r.errors, strs(&["tests::test_foo", "tests::test_bar"]));
}

#[test]
fn test_keeps_at_most_ten_lines() {
    let mut out = String::new();
    for i in 0..12 {
        out.push_str(&format!("test t{} ... FAILED\n", i));
    }
    let r = TestChecker.check_result(false, out.as_bytes(), b"", Duration::ZERO);
    assert_eq!(r.errors.len(), 10);
    assert_eq!(r.errors[9], "t9");
}

#[test]
fn test_fallback_message() {
    let r = TestChecker.check_result(false, b"error: could not compile", b"", Duration::ZERO);
    assert_eq!(r.errors, strs(&["Some tests failed"]));
}

#[test]
fn build_and_fmt_failures() {
    let r = BuildChecker.check_result(false, b"", b"error[E0425]", Duration::ZERO);
    assert_eq!(r.errors, strs(&["Build failed"]));
    assert_eq!(r.output, "error[E0425]");
    let r = FmtChecker.check_result(false, b"Diff in x", b"", Duration::ZERO);
    assert_eq!(r.errors, strs(&["Formatting check failed"]));
    assert_eq!(r.status, CheckStatus::Failed);
}

#[test]
fn output_joins_stdout_and_stderr() {
    let s = combined_output(b"out\n", b"err\n");
    assert_eq!(s, "out\nerr\n");
}

#[test]
fn invalid_utf8_is_replaced() {
    let s = combined_output(&[b'a', 0xff, b'b'], b"");
    assert_eq!(s, "a\u{fffd}b");
}

#[test]
fn custom_check() {
    let c = CustomChecker::new(
        "security-audit".to_string(),
        CustomCheckConfig { command: "cargo".to_string(), enabled: true, args: strs(&["audit"]) },
    );
    assert_eq!(c.name(), "security-audit");
    let cmd = c.command(&config(false, None, 42));
    assert_eq!(cmd.program, "cargo");
    assert_eq!(cmd.args, strs(&["audit"]));
    assert_eq!(cmd.timeout_secs, Some(42));
    let r = c.check_result(false, b"vulnerable", b"", Duration::ZERO);
    assert_eq!(r.name, "security-audit");
    assert_eq!(r.errors, strs(&["Custom check 'security-audit' failed"]));
    let r = c.check_result(true, b"", b"", Duration::ZERO);
    assert!(r.errors.is_empty());
}
