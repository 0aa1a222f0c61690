use devcheck::cli::Args;
use devcheck::config::{
    default_timeout, default_true, parse_color, parse_format, CheckConfig, ColorMode,
    Config, ConfigFile, CustomCheckConfig, DevCheckConfig, OutputFormat,
};
use devcheck::error::DevCheckError;

fn args() -> Args {
    Args {
        fmt: false,
        clippy: false,
        test: false,
        build: false,
        no_default: false,
        format: "terminal".to_string(),
        quiet: false,
        verbose: false,
        color: "auto".to_string(),
        manifest_path: None,
        workspace: false,
        watch: false,
        jobs: None,
        timeout: None,
    }
}

fn file() -> ConfigFile {
    ConfigFile { devcheck: DevCheckConfig::default() }
}

fn resolve(a: &Args, f: ConfigFile) -> Config {
    Config::resolve(a, f, true, std::time::Instant::now()).expect("valid options")
}

#[test]
fn serde_defaults() {
    assert_eq!(default_timeout(), 300);
    assert!(default_true());
}

#[test]
fn check_config_default_is_enabled_without_args() {
    let c = CheckConfig::default();
    assert!(c.enabled);
    assert!(c.args.is_empty());
}

#[test]
fn devcheck_config_default() {
    let c = DevCheckConfig::default();
    assert_eq!(c.timeout, 300);
    assert!(c.parallel);
    assert!(c.fmt.enabled && c.clippy.enabled && c.test.enabled);
    assert!(!c.build.enabled);
    assert!(c.custom.is_empty());
}

#[test]
fn format_names() {
    assert_eq!(parse_format("terminal"), Some(OutputFormat::Terminal));
    assert_eq!(parse_format("json"), Some(OutputFormat::Json));
    assert_eq!(parse_format("html"), Some(OutputFormat::Html));
    assert_eq!(parse_format("markdown"), Some(OutputFormat::Markdown));
    assert_eq!(parse_format("md"), Some(OutputFormat::Markdown));
    assert_eq!(parse_format("xml"), None);
    assert_eq!(parse_format("JSON"), None);
}

#[test]
fn color_names() {
    assert_eq!(parse_color("auto"), Some(ColorMode::Auto));
    assert_eq!(parse_color("always"), Some(ColorMode::Always));
    assert_eq!(parse_color("never"), Some(ColorMode::Never));
    assert_eq!(parse_color("sometimes"), None);
}

#[test]
fn default_selection_runs_fmt_clippy_test() {
    let c = resolve(&args(), file());
    assert!(c.run_fmt && c.run_clippy && c.run_test);
    assert!(!c.run_build);
    assert_eq!(c.format, OutputFormat::Terminal);
    assert_eq!(c.color, ColorMode::Auto);
    assert_eq!(c.timeout, 300);
}

#[test]
fn named_checks_win_over_file() {
    let mut a = args();
    a.build = true;
    let c = resolve(&a, file());
    assert!(!c.run_fmt && !c.run_clippy && !c.run_test);
    assert!(c.run_build);
}

#[test]
fn no_default_alone_runs_nothing() {
    let mut a = args();
    a.no_default = true;
    let c = resolve(&a, file());
    assert!(!c.run_fmt && !c.run_clippy && !c.run_test && !c.run_build);
}

#[test]
fn no_default_with_named_check() {
    let mut a = args();
    a.no_default = true;
    a.fmt = true;
    a.clippy = true;
    let c = resolve(&a, file());
    assert!(c.run_fmt && c.run_clippy && !c.run_test && !c.run_build);
}

#[test]
fn file_enables_checks_without_flags() {
    let mut f = file();
    f.devcheck.build.enabled = true;
    f.devcheck.test.enabled = false;
    let c = resolve(&args(), f);
    assert!(c.run_fmt && c.run_clippy && !c.run_test && c.run_build);
}

#[test]
fn command_line_timeout_wins() {
    let mut f = file();
    f.devcheck.timeout = 120;
    let mut a = args();
    a.timeout = Some(60);
    assert_eq!(resolve(&a, f).timeout, 60);
    let mut f = file();
    f.devcheck.timeout = 600;
    let mut a = args();
    a.timeout = Some(300);
    assert_eq!(resolve(&a, f).timeout, 300);
    let mut f = file();
    f.devcheck.timeout = 120;
    assert_eq!(resolve(&args(), f).timeout, 120);
    assert_eq!(resolve(&args(), file()).timeout, 300);
}

#[test]
fn options_are_carried_over() {
    let mut a = args();
    a.quiet = true;
    a.verbose = true;
    a.workspace = true;
    a.watch = true;
    a.jobs = Some(4);
    a.manifest_path = Some("crate/Cargo.toml".to_string());
    a.format = "md".to_string();
    a.color = "never".to_string();
    let mut f = file();
    f.devcheck.custom.push((
        "audit".to_string(),
        CustomCheckConfig { command: "cargo".to_string(), enabled: true, args: vec!["audit".to_string()] },
    ));
    let c = resolve(&a, f);
    assert!(c.quiet && c.verbose && c.workspace && c.watch);
    assert_eq!(c.jobs, Some(4));
    assert_eq!(c.manifest_path.as_deref(), Some("crate/Cargo.toml"));
    assert_eq!(c.format, OutputFormat::Markdown);
    assert_eq!(c.color, ColorMode::Never);
    assert_eq!(c.custom_checks.len(), 1);
    assert_eq!(c.custom_checks[0].0, "audit");
    assert_eq!(c.custom_checks[0].1.args, vec!["audit".to_string()]);
}

#[test]
fn check_arguments_are_kept() {
    let mut f = file();
    f.devcheck.test.args = vec!["--all-features".to_string()];
    f.devcheck.clippy.args = vec!["--".to_string(), "-D".to_string(), "warnings".to_string()];
    let c = resolve(&args(), f);
    assert_eq!(c.extra_args.test, vec!["--all-features".to_string()]);
    assert_eq!(c.extra_args.clippy.len(), 3);
    assert!(c.extra_args.fmt.is_empty() && c.extra_args.build.is_empty());
}

#[test]
fn restart_keeps_settings() {
    let mut a = args();
    a.workspace = true;
    a.timeout = Some(60);
    let mut f = file();
    f.devcheck.test.args = vec!["--all-features".to_string()];
    f.devcheck.custom.push((
        "doc".to_string(),
        CustomCheckConfig { command: "cargo".to_string(), enabled: false, args: vec!["doc".to_string()] },
    ));
    let c = resolve(&a, f);
    let later = c.start_time + std::time::Duration::from_secs(5);
    let r = c.restarted_at(later);
    assert_eq!(r.start_time, later);
    assert!(r.workspace && r.run_fmt && r.run_clippy && r.run_test && !r.run_build);
    assert_eq!(r.timeout, 60);
    assert_eq!(r.extra_args.test, vec!["--all-features".to_string()]);
    assert_eq!(r.custom_checks.len(), 1);
    assert_eq!(r.custom_checks[0].0, "doc");
    assert!(!r.custom_checks[0].1.enabled);
    let now = c.restarted();
    assert!(now.start_time >= c.start_time);
    assert_eq!(now.timeout, 60);
}

#[test]
fn invalid_format_is_refused_first() {
    let mut a = args();
    a.format = "xml".to_string();
    a.color = "bad".to_string();
    match Config::resolve(&a, file(), false, std::time::Instant::now()) {
        Err(DevCheckError::ConfigError(m)) => assert_eq!(m, "invalid format: xml"),
        other => panic!("unexpected: {:?}", other.map(|_| ())),
    }
}

#[test]
fn invalid_color_is_refused() {
    let mut a = args();
    a.color = "bad".to_string();
    match Config::resolve(&a, file(), true, std::time::Instant::now()) {
        Err(DevCheckError::ConfigError(m)) => assert_eq!(m, "invalid color mode: bad"),
        other => panic!("unexpected: {:?}", other.map(|_| ())),
    }
}

#[test]
fn missing_cargo_is_refused() {
    match Config::resolve(&args(), file(), false, std::time::Instant::now()) {
        Err(DevCheckError::CargoNotFound) => {}
        other => panic!("unexpected: {:?}", other.map(|_| ())),
    }
}

#[test]
fn from_args_refuses_invalid_format() {
    let mut a = args();
    a.format = "pdf".to_string();
    match Config::from_args(&a, file()) {
        Err(DevCheckError::ConfigError(m)) => assert_eq!(m, "invalid format: pdf"),
        other => panic!("unexpected: {:?}", other.map(|_| ())),
    }
}

#[test]
fn from_args_with_valid_options() {
    match Config::from_args(&args(), file()) {
        Ok(c) => assert!(c.run_fmt && c.run_clippy && c.run_test && !c.run_build),
        Err(DevCheckError::CargoNotFound) => {}
        Err(e) => panic!("unexpected: {}", e.message()),
    }
}

#[test]
fn custom_names_are_kept_once() {
    let mut f = file();
    let entry = |cmd: &str, on: bool| CustomCheckConfig { command: cmd.to_string(), enabled: on, args: Vec::new() };
    f.devcheck.custom.push(("audit".to_string(), entry("first", true)));
    f.devcheck.custom.push(("doc".to_string(), entry("cargo", false)));
    f.devcheck.custom.push(("audit".to_string(), entry("second", true)));
    let c = resolve(&args(), f);
    assert_eq!(c.custom_checks.len(), 2);
    assert_eq!(c.custom_checks[0].0, "audit");
    assert_eq!(c.custom_checks[0].1.command, "first");
    assert_eq!(c.custom_checks[1].0, "doc");
}
