use devcheck::checker::{make_result, CheckResult, CheckStatus};
use devcheck::cli::Args;
use devcheck::config::{ColorMode, Config, ConfigFile, DevCheckConfig};
use devcheck::report::html::{html_escape, render_html};
use devcheck::report::markdown::render_markdown;
use devcheck::report::terminal::render_terminal;
use devcheck::report::{
    color_override, exit_code, render_report, Piece, Report, Style, ERROR_EXIT_CODE, VERSION,
};
use std::time::Duration;

fn check(name: &str, ok: bool, millis: u64, output: &str, errors: &[&str]) -> CheckResult {
    make_result(
        name,
        ok,
        Duration::from_millis(millis),
        output.to_string(),
        errors.iter().map(|e| e.to_string()).collect(),
    )
}

fn flat(pieces: &[Piece]) -> String {
    let mut s = String::new();
    for p in pieces {
        match p {
            Piece::Text { text, .. } => s.push_str(text),
            Piece::Seconds { duration, width, precision } => s.push_str(&format!(
                "{:>w$.p$}",
                duration.as_secs_f64(),
                w = *width,
                p = *precision
            )),
        }
    }
    s
}

fn sample() -> Report {
    Report::from_parts(
        vec![
            check("fmt", true, 300, "", &[]),
            check("test", false, 2000, "OUT", &["test a ... FAILED"]),
        ],
        Duration::from_millis(1500),
        "2025-01-01T00:00:00+00:00".to_string(),
    )
}

fn config(format: &str, quiet: bool) -> Config {
    let args = Args {
        fmt: false,
        clippy: false,
        test: false,
        build: false,
        no_default: false,
        format: format.to_string(),
        quiet,
        verbose: false,
        color: "never".to_string(),
        manifest_path: None,
        workspace: false,
        watch: false,
        jobs: None,
        timeout: None,
    };
    Config::resolve(&args, ConfigFile { devcheck: DevCheckConfig::default() }, true, std::time::Instant::now())
        .expect("valid options")
}

#[test]
fn summary_counts() {
    let r = Report::from_parts(
        vec![
            check("a", true, 1, "", &[]),
            check("b", false, 1, "", &["x"]),
            check("c", false, 1, "", &["y"]),
            make_result("d", true, Duration::ZERO, String::new(), Vec::new()),
        ],
        Duration::ZERO,
        "t".to_string(),
    );
    assert_eq!(r.summary.total, 4);
    assert_eq!(r.summary.passed, 2);
    assert_eq!(r.summary.failed, 2);
    assert!(r.has_failures());
    assert_eq!(exit_code(&r), 1);
    assert_eq!(r.version, VERSION);
    assert_eq!(r.timestamp, "t");
}

#[test]
fn skipped_checks_count_neither_way() {
    let mut skipped = check("s", true, 1, "", &[]);
    skipped.status = CheckStatus::Skipped;
    let r = Report::from_parts(vec![skipped], Duration::ZERO, String::new());
    assert_eq!(r.summary.total, 1);
    assert_eq!(r.summary.passed, 0);
    assert_eq!(r.summary.failed, 0);
    assert_eq!(exit_code(&r), 0);
}

#[test]
fn all_passing_exits_zero() {
    let r = Report::from_parts(vec![check("fmt", true, 1, "", &[])], Duration::ZERO, String::new());
    assert!(!r.has_failures());
    assert_eq!(exit_code(&r), 0);
}

#[test]
fn empty_report() {
    let r = Report::from_parts(Vec::new(), Duration::ZERO, String::new());
    assert_eq!(r.summary.total, 0);
    assert_eq!(exit_code(&r), 0);
}

#[test]
fn from_results_stamps_the_time() {
    let r = Report::from_results(vec![check("fmt", true, 1, "", &[])], std::time::Instant::now());
    assert_eq!(r.summary.total, 1);
    assert!(r.timestamp.contains('T'));
    assert!(r.timestamp.len() >= 20);
}

#[test]
fn escapes_markup() {
    assert_eq!(
        html_escape("<a href=\"x\">&'b'\r\nc"),
        "&lt;a href=&quot;x&quot;&gt;&amp;&#39;b&#39;<br>c"
    );
    assert_eq!(html_escape("plain text"), "plain text");
    assert_eq!(html_escape(""), "");
}

fn unescape(t: &str) -> String {
    t.replace("<br>", "\n")
        .replace("&#39;", "'")
        .replace("&quot;", "\"")
        .replace("&gt;", ">")
        .replace("&lt;", "<")
        .replace("&amp;", "&")
}

#[test]
fn escaping_reads_back() {
    for s in ["<a href=\"x\">&'b'\r\nc", "&lt; is not <", "a\r\n\r\nb", "&amp;&#39;<br>", "plain"] {
        assert_eq!(unescape(&html_escape(s)), s.replace('\r', ""));
    }
}

#[test]
fn errors_exit_with_two() {
    assert_eq!(ERROR_EXIT_CODE, 2);
}

#[test]
fn markdown_document() {
    let md = flat(&render_markdown(&sample()));
    let expected = "# devcheck Report\n\n## Summary\n\n- **Total Checks**: 2\n- **Passed**: ✅ 1\n- **Failed**: ❌ 1\n- **Duration**: 1.50s\n- **Timestamp**: 2025-01-01T00:00:00+00:00\n\n## Check Results\n\n### ✅ fmt - PASSED\n\n- **Duration**: 0.30s\n\n### ❌ test - FAILED\n\n- **Duration**: 2.00s\n\n**Errors:**\n\n- test a ... FAILED\n\n<details>\n<summary>View Output</summary>\n\n```\nOUT\n```\n\n</details>\n\n\n---\n\n*Generated by devcheck v0.1.0*\n\n";
    assert_eq!(md, expected);
}

#[test]
fn terminal_quiet() {
    let r = Report::from_parts(vec![check("fmt", true, 300, "", &[])], Duration::ZERO, String::new());
    let pieces = render_terminal(&r, true, false);
    let expected = "✓ cargo fmt      [  0.3s] PASSED\n\n───────────────────────────────────────\n\n";
    assert_eq!(flat(&pieces), expected);
    match &pieces[0] {
        Piece::Text { style, text } => {
            assert_eq!(*style, Style::Green);
            assert_eq!(text, "✓");
        }
        _ => panic!("expected text"),
    }
}

#[test]
fn terminal_full() {
    let text = flat(&render_terminal(&sample(), false, true));
    let expected = ["\n╭─────────────────────────────────────╮\n", "│  devcheck - Rust Quality Checker    │\n", "╰─────────────────────────────────────╯\n\n", "✓ cargo fmt      [  0.3s] PASSED\n", "✗ cargo test     [  2.0s] FAILED\n", "\n───────────────────────────────────────\n", "\nSummary:\n  Total:   2 checks\n  Passed:  1 check\n  Failed:  1 check\n  Time:    1.5s\n", "\nFailed Checks:\n  ✗ cargo test\n    test a ... FAILED\n", "\n    Output:\n    OUT\n", "\n"].concat();
    assert_eq!(text, expected);
}

#[test]
fn terminal_matches_the_documented_layout() {
    let r = Report::from_parts(
        vec![
            check("fmt", true, 1200, "", &[]),
            check("clippy", true, 3400, "", &[]),
            check("test", false, 5600, "", &["2 tests failed:", "- tests::test_foo", "- tests::test_bar"]),
        ],
        Duration::from_millis(5600),
        String::new(),
    );
    let text = flat(&render_terminal(&r, false, false));
    let wanted = [
        "✓ cargo fmt      [  1.2s] PASSED\n",
        "✓ cargo clippy   [  3.4s] PASSED\n",
        "✗ cargo test     [  5.6s] FAILED\n",
        "Summary:\n",
        "  Total:   3 checks\n",
        "  Passed:  2 checks\n",
        "  Failed:  1 check\n",
        "  Time:    5.6s\n",
        "Failed Checks:\n",
        "  ✗ cargo test\n",
        "    2 tests failed:\n",
    ];
    let mut from = 0;
    for w in wanted {
        let at = text[from..].find(w).unwrap_or_else(|| panic!("missing {:?} in {:?}", w, text));
        from += at + w.len();
    }
}

#[test]
fn terminal_long_names_are_not_cut() {
    let r = Report::from_parts(vec![check("a-very-long-name", true, 0, "", &[])], Duration::ZERO, String::new());
    let text = flat(&render_terminal(&r, true, false));
    assert!(text.starts_with("✓ cargo a-very-long-name [  0.0s] PASSED\n"));
}

#[test]
fn verbose_output_shows_twenty_lines() {
    let mut out = String::new();
    for i in 0..25 {
        out.push_str(&format!("line {}\n", i));
    }
    let r = Report::from_parts(vec![check("test", false, 0, &out, &[])], Duration::ZERO, String::new());
    let text = flat(&render_terminal(&r, true, true));
    assert!(text.contains("    line 19\n"));
    assert!(!text.contains("line 20"));
}

#[test]
fn html_page() {
    let r = Report::from_parts(
        vec![check("t<1>", false, 1234, "", &["a <b>"])],
        Duration::from_millis(1234),
        "now".to_string(),
    );
    let page = flat(&render_html(&r));
    assert!(page.starts_with("<!DOCTYPE html>\n<html lang=\"en\">"));
    assert!(page.contains("<div class=\"stat-value\">1</div>"));
    assert!(page.contains("<div class=\"stat-value\">1.23s</div>"));
    assert!(page.contains("<span>t&lt;1&gt;</span>"));
    assert!(page.contains("<span class=\"status failed\">FAILED</span>"));
    assert!(page.contains("<div>a &lt;b&gt;</div>"));
    assert!(page.ends_with("Generated by devcheck v0.1.0 at now\n        </div>\n    </div>\n</body>\n</html>\n"));
}

#[test]
fn render_by_format() {
    let r = sample();
    assert!(render_report(&r, &config("json", false)).is_none());
    let md = render_report(&r, &config("markdown", false)).expect("some");
    assert_eq!(flat(&md), flat(&render_markdown(&r)));
    let term = render_report(&r, &config("terminal", true)).expect("some");
    assert_eq!(flat(&term), flat(&render_terminal(&r, true, false)));
    let html = render_report(&r, &config("html", false)).expect("some");
    assert_eq!(flat(&html), flat(&render_html(&r)));
}

#[test]
fn color_modes() {
    assert_eq!(color_override(ColorMode::Always), Some(true));
    assert_eq!(color_override(ColorMode::Never), Some(false));
    assert_eq!(color_override(ColorMode::Auto), None);
}
