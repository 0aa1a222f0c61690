use devcheck::checker::{make_result, CheckResult, CheckStatus};
use devcheck::cli::Args;
use devcheck::config::{Config, ConfigFile, CustomCheckConfig, DevCheckConfig};
use devcheck::error::DevCheckError;
use devcheck::runner::{
    collect_results, name_le, plan_checks, plan_run, sort_by_name, CheckKind, PlannedCheck,
};
use std::time::Duration;

fn result(name: &str, ok: bool) -> CheckResult {
    make_result(name, ok, Duration::from_millis(10), String::new(), Vec::new())
}

fn config(fmt: bool, clippy: bool, test: bool, build: bool) -> Config {
    let args = Args {
        fmt,
        clippy,
        test,
        build,
        no_default: true,
        format: "json".to_string(),
        quiet: false,
        verbose: false,
        color: "never".to_string(),
        manifest_path: None,
        workspace: false,
        watch: false,
        jobs: None,
        timeout: None,
    };
    Config::resolve(&args, ConfigFile { devcheck: DevCheckConfig::default() }, true, std::time::Instant::now())
        .expect("valid options")
}

#[test]
fn plan_follows_the_flags_in_order() {
    assert_eq!(
        plan_checks(&config(true, true, true, true)),
        vec![CheckKind::Fmt, CheckKind::Clippy, CheckKind::Test, CheckKind::Build]
    );
    assert_eq!(plan_checks(&config(false, true, false, true)), vec![CheckKind::Clippy, CheckKind::Build]);
    assert!(plan_checks(&config(false, false, false, false)).is_empty());
}

fn custom(command: &str, enabled: bool, args: &[&str]) -> CustomCheckConfig {
    CustomCheckConfig {
        command: command.to_string(),
        enabled,
        args: args.iter().map(|a| a.to_string()).collect(),
    }
}

#[test]
fn enabled_custom_checks_are_planned_after_the_built_in_ones() {
    let mut file = DevCheckConfig::default();
    file.custom.push(("security-audit".to_string(), custom("cargo", true, &["audit"])));
    file.custom.push(("doc-coverage".to_string(), custom("cargo", false, &["doc", "--no-deps"])));
    file.custom.push(("project-lint".to_string(), custom("./tools/lint", true, &[])));
    let mut args = Args {
        fmt: false,
        clippy: false,
        test: true,
        build: false,
        no_default: false,
        format: "json".to_string(),
        quiet: false,
        verbose: false,
        color: "never".to_string(),
        manifest_path: None,
        workspace: false,
        watch: false,
        jobs: None,
        timeout: Some(45),
    };
    let cfg = Config::resolve(&args, ConfigFile { devcheck: file.clone() }, true, std::time::Instant::now())
        .expect("valid options");
    let plan = plan_run(&cfg);
    let names: Vec<&str> = plan.iter().map(|p| p.name()).collect();
    assert_eq!(names, vec!["test", "security-audit", "project-lint"]);
    assert!(matches!(plan[0], PlannedCheck::Builtin(CheckKind::Test)));
    let audit = plan[1].command(&cfg);
    assert_eq!(audit.program, "cargo");
    assert_eq!(audit.args, vec!["audit".to_string()]);
    assert_eq!(audit.timeout_secs, Some(45));
    let lint = plan[2].command(&cfg);
    assert_eq!(lint.program, "./tools/lint");
    assert!(lint.args.is_empty());
    let r = plan[2].check_result(false, b"", b"boom", Duration::from_secs(1));
    assert_eq!(r.name, "project-lint");
    assert_eq!(r.status, CheckStatus::Failed);
    assert_eq!(r.errors, vec!["Custom check 'project-lint' failed".to_string()]);
    let r = plan[0].check_result(true, b"", b"", Duration::from_secs(1));
    assert_eq!(r.name, "test");
    assert!(r.errors.is_empty());

    args.test = false;
    args.no_default = true;
    let cfg = Config::resolve(&args, ConfigFile { devcheck: file }, true, std::time::Instant::now())
        .expect("valid options");
    let names: Vec<String> = plan_run(&cfg).iter().map(|p| p.name().to_string()).collect();
    assert_eq!(names, vec!["security-audit".to_string(), "project-lint".to_string()]);
}

#[test]
fn kind_dispatch() {
    assert_eq!(CheckKind::Test.name(), "test");
    let cfg = config(false, false, false, true);
    assert_eq!(CheckKind::Build.command(&cfg).args, vec!["build".to_string()]);
    let r = CheckKind::Clippy.check_result(false, b"error: e\n", b"", Duration::ZERO);
    assert_eq!(r.name, "clippy");
    assert_eq!(r.errors, vec!["error: e".to_string()]);
}

#[test]
fn names_compare_like_strings() {
    assert!(name_le("build", "clippy"));
    assert!(!name_le("test", "fmt"));
    assert!(name_le("fmt", "fmt"));
    assert!(name_le("fm", "fmt"));
    assert!(!name_le("fmt", "fm"));
    assert!(name_le("", ""));
    assert!(name_le("Z", "a"));
}

#[test]
fn sorted_by_name() {
    let v = vec![result("test", true), result("build", false), result("fmt", true), result("clippy", true)];
    let names: Vec<String> = sort_by_name(v).into_iter().map(|r| r.name).collect();
    assert_eq!(names, vec!["build", "clippy", "fmt", "test"]);
}

#[test]
fn equal_names_keep_their_order() {
    let a = make_result("x", true, Duration::from_millis(1), "first".to_string(), Vec::new());
    let b = make_result("x", true, Duration::from_millis(2), "second".to_string(), Vec::new());
    let out = sort_by_name(vec![a, result("a", true), b]);
    assert_eq!(out[0].name, "a");
    assert_eq!(out[1].output, "first");
    assert_eq!(out[2].output, "second");
}

#[test]
fn collect_sorts_the_results() {
    let got = collect_results(vec![Ok(result("test", false)), Ok(result("fmt", true))]).expect("ok");
    assert_eq!(got.len(), 2);
    assert_eq!(got[0].name, "fmt");
    assert_eq!(got[1].name, "test");
    assert_eq!(got[1].status, CheckStatus::Failed);
}

#[test]
fn collect_returns_the_first_error() {
    let r = collect_results(vec![
        Ok(result("fmt", true)),
        Err(DevCheckError::Timeout { timeout: 5 }),
        Err(DevCheckError::Other("later".to_string())),
    ]);
    match r {
        Err(DevCheckError::Timeout { timeout }) => assert_eq!(timeout, 5),
        other => panic!("unexpected: {:?}", other.map(|v| v.len())),
    }
}

#[test]
fn collect_nothing() {
    assert!(collect_results(Vec::new()).expect("ok").is_empty());
}
