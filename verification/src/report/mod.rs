//! The report of a run: its summary, its exit code and its renderings.

pub mod html;
pub mod markdown;
pub mod pieces;
pub mod terminal;

pub use pieces::{Piece, PieceView, Style};



use crate::checker::{CheckResult, CheckStatus};
use crate::config::{ColorMode, Config, OutputFormat};
use crate::text::owned;
use std::time::{Duration, Instant};
use vstd::prelude::*;

verus! {

/// The version that reports name.
pub const VERSION: &'static str = "0.1.0";

/// What a run found.
#[derive(Debug)]
pub struct Report {
    pub version: String,
    pub timestamp: String,
    pub duration: Duration,
    pub summary: Summary,
    pub checks: Vec<CheckResult>,
}

/// How many checks ran, passed and failed.
#[derive(Debug, Clone, Copy, PartialEq, Eq, Structural)]
pub struct Summary {
    pub total: usize,
    pub passed: usize,
    pub failed: usize,
}

/// How many of `cs` have the status `st`.
pub open spec fn count_status(cs: Seq<CheckResult>, st: CheckStatus) -> nat
    decreases cs.len(),
{
    if cs.len() == 0 {
        0
    } else {
        count_status(cs.drop_last(), st) + if cs.last().status == st {
            1nat
        } else {
            0nat
        }
    }
}

/// A status occurs among `cs` exactly when its count is positive, and no
/// count exceeds the number of checks.
pub proof fn lemma_count_status(cs: Seq<CheckResult>, st: CheckStatus)
    ensures
        count_status(cs, st) <= cs.len(),
        count_status(cs, st) > 0 <==> exists|i: int| 0 <= i < cs.len() && #[trigger] cs[i].status
            == st,
    decreases cs.len(),
{
    if cs.len() > 0 {
        let init = cs.drop_last();
        lemma_count_status(init, st);
        if exists|i: int| 0 <= i < init.len() && #[trigger] init[i].status == st {
            let i = choose|i: int| 0 <= i < init.len() && #[trigger] init[i].status == st;
            assert(cs[i] == init[i]);
        }
        if exists|i: int| 0 <= i < cs.len() && #[trigger] cs[i].status == st {
            let i = choose|i: int| 0 <= i < cs.len() && #[trigger] cs[i].status == st;
            if i < cs.len() - 1 {
                assert(init[i] == cs[i]);
            }
        }
    }
}

/// Checks that passed and checks that failed together are no more than all
/// checks.
pub proof fn lemma_passed_and_failed_within_total(cs: Seq<CheckResult>)
    ensures
        count_status(cs, CheckStatus::Passed) + count_status(cs, CheckStatus::Failed) <= cs.len(),
    decreases cs.len(),
{
    if cs.len() > 0 {
        lemma_passed_and_failed_within_total(cs.drop_last());
    }
}

/// Counting is additive: one more check adds one to the count of its own
/// status and nothing to the others.
pub proof fn lemma_count_push(cs: Seq<CheckResult>, x: CheckResult, st: CheckStatus)
    ensures
        count_status(cs.push(x), st) == count_status(cs, st) + (if x.status == st {
            1int
        } else {
            0int
        }),
{
    assert(cs.push(x).drop_last() =~= cs);
    assert(cs.push(x).last() == x);
}

/// The count over two lists of checks put together is the sum of their
/// counts.
pub proof fn lemma_count_concat(a: Seq<CheckResult>, b: Seq<CheckResult>, st: CheckStatus)
    ensures
        count_status(a + b, st) == count_status(a, st) + count_status(b, st),
    decreases b.len(),
{
    if b.len() == 0 {
        assert(a + b =~= a);
    } else {
        let init = b.drop_last();
        lemma_count_concat(a, init, st);
        assert((a + b).drop_last() =~= a + init);
        assert((a + b).last() == b.last());
    }
}

/// Every check is counted under exactly one status: passed, failed and
/// skipped checks add up to all checks.
pub proof fn lemma_counts_add_up(cs: Seq<CheckResult>)
    ensures
        count_status(cs, CheckStatus::Passed) + count_status(cs, CheckStatus::Failed)
            + count_status(cs, CheckStatus::Skipped) == cs.len(),
    decreases cs.len(),
{
    if cs.len() > 0 {
        lemma_counts_add_up(cs.drop_last());
    }
}

/// When every check has the status `st`, all of them are counted under it.
pub proof fn lemma_count_all(cs: Seq<CheckResult>, st: CheckStatus)
    requires
        forall|i: int| 0 <= i < cs.len() ==> #[trigger] cs[i].status == st,
    ensures
        count_status(cs, st) == cs.len(),
    decreases cs.len(),
{
    if cs.len() > 0 {
        let init = cs.drop_last();
        assert forall|i: int| 0 <= i < init.len() implies #[trigger] init[i].status == st by {
            assert(init[i] == cs[i]);
        }
        lemma_count_all(init, st);
        assert(cs.last() == cs[cs.len() - 1]);
    }
}

/// A report of checks that all passed counts every check as passed and
/// none as failed, and exits with 0.
pub proof fn lemma_all_passed_report(r: Report)
    requires
        r.summarizes(),
        forall|i: int| 0 <= i < r.checks@.len() ==> #[trigger] r.checks@[i].status
            == CheckStatus::Passed,
    ensures
        r.summary.passed == r.summary.total,
        r.summary.failed == 0,
        exit_status(r) == 0,
{
    lemma_count_all(r.checks@, CheckStatus::Passed);
    lemma_counts_add_up(r.checks@);
}

/// How many of `cs` have the status `st`.
fn count_with_status(cs: &Vec<CheckResult>, st: CheckStatus) -> (n: usize)
    ensures
        n == count_status(cs@, st),
{
    let mut n: usize = 0;
    let mut i: usize = 0;
    while i < cs.len()
        invariant
            i <= cs@.len(),
            n == count_status(cs@.take(i as int), st),
            n <= i,
        decreases cs@.len() - i,
    {
        assert(cs@.take(i + 1).drop_last() =~= cs@.take(i as int));
        proof {
            lemma_count_status(cs@.take(i + 1), st);
        }
        if cs[i].status == st {
            n = n + 1;
        }
        i = i + 1;
    }
    assert(cs@.take(cs@.len() as int) =~= cs@);
    n
}

/// `Instant::elapsed`: the time since `start`, of which nothing is stated.
#[verifier::external_body]
fn elapsed_since(start: &Instant) -> Duration {
    start.elapsed()
}

/// `chrono::Utc::now`, written in RFC 3339 form; the current time, of
/// which nothing is stated.
#[verifier::external_body]
fn utc_now_rfc3339() -> String {
    chrono::Utc::now().to_rfc3339()
}

impl Report {
    /// The summary agrees with the checks.
    pub open spec fn summarizes(self) -> bool {
        &&& self.summary.total == self.checks@.len()
        &&& self.summary.passed == count_status(self.checks@, CheckStatus::Passed)
        &&& self.summary.failed == count_status(self.checks@, CheckStatus::Failed)
    }

    /// The report of the checks `results`, which ran for `duration` and
    /// ended at the time written `timestamp`.
    pub fn from_parts(results: Vec<CheckResult>, duration: Duration, timestamp: String) -> (r:
        Report)
        ensures
            r.version@ == VERSION@,
            r.timestamp@ == timestamp@,
            r.duration == duration,
            r.checks@ == results@,
            r.summarizes(),
    {
        let total = results.len();
        let passed = count_with_status(&results, CheckStatus::Passed);
        let failed = count_with_status(&results, CheckStatus::Failed);
        Report {
            version: owned(VERSION),
            timestamp,
            duration,
            summary: Summary { total, passed, failed },
            checks: results,
        }
    }

    /// The report of the checks `results` of a run that started at
    /// `start_time`, stamped with the current time.
    pub fn from_results(results: Vec<CheckResult>, start_time: Instant) -> (r: Report)
        ensures
            r.version@ == VERSION@,
            r.checks@ == results@,
            r.summarizes(),
    {
        let duration = elapsed_since(&start_time);
        let timestamp = utc_now_rfc3339();
        Self::from_parts(results, duration, timestamp)
    }

    /// Whether some check failed.
    pub fn has_failures(&self) -> (b: bool)
        ensures
            b == (self.summary.failed > 0),
    {
        self.summary.failed > 0
    }
}

/// The exit status of a run with the report `r`: 1 when some check
/// failed, 0 otherwise.
pub open spec fn exit_status(r: Report) -> i32 {
    if r.summary.failed > 0 {
        1
    } else {
        0
    }
}

/// The exit status of a run with the report `report`.
pub fn exit_code(report: &Report) -> (c: i32)
    ensures
        c == exit_status(*report),
{
    if report.has_failures() {
        1
    } else {
        0
    }
}

/// The exit status of a run that could not perform its checks: an invalid
/// option, a missing cargo program, a command that could not be started.
pub const ERROR_EXIT_CODE: i32 = 2;

/// A report that summarizes its checks has failures exactly when one of
/// its checks failed, and then its run exits with status 1, else with 0.
pub proof fn lemma_failures_match_checks(r: Report)
    requires
        r.summarizes(),
    ensures
        (r.summary.failed > 0) <==> exists|i: int| 0 <= i < r.checks@.len()
            && #[trigger] r.checks@[i].status == CheckStatus::Failed,
        r.summary.passed + r.summary.failed <= r.summary.total,
        r.summary.total == r.checks@.len(),
        exit_status(r) == 1 <==> exists|i: int| 0 <= i < r.checks@.len()
            && #[trigger] r.checks@[i].status == CheckStatus::Failed,
        exit_status(r) == 0 <==> forall|i: int| 0 <= i < r.checks@.len()
            ==> #[trigger] r.checks@[i].status != CheckStatus::Failed,
{
    lemma_count_status(r.checks@, CheckStatus::Failed);
    lemma_count_status(r.checks@, CheckStatus::Passed);
    lemma_passed_and_failed_within_total(r.checks@);
}

/// Whether colors are forced on (`Some(true)`), forced off (`Some(false)`)
/// or left to the terminal's detection (`None`).
pub fn color_override(mode: ColorMode) -> (r: Option<bool>)
    ensures
        r == (match mode {
            ColorMode::Always => Some(true),
            ColorMode::Never => Some(false),
            ColorMode::Auto => None::<bool>,
        }),
{
    match mode {
        ColorMode::Always => Some(true),
        ColorMode::Never => Some(false),
        ColorMode::Auto => None,
    }
}

/// The rendering of `report` in the format `config` asks for, or `None`
/// for the JSON format, which is a serialization of the report itself.
pub fn render_report(report: &Report, config: &Config) -> (r: Option<Vec<Piece>>)
    ensures
        config.format == OutputFormat::Json ==> r is None,
        config.format == OutputFormat::Terminal ==> (r matches Some(v) && pieces::pieces_view(v@)
            == terminal::terminal_view(*report, config.quiet, config.verbose)),
        config.format == OutputFormat::Html ==> (r matches Some(v) && pieces::pieces_view(v@)
            == html::html_view(*report)),
        config.format == OutputFormat::Markdown ==> (r matches Some(v) && pieces::pieces_view(v@)
            == markdown::markdown_view(*report)),
{
    match config.format {
        OutputFormat::Terminal => Some(terminal::render_terminal(report, config.quiet, config.verbose)),
        OutputFormat::Json => None,
        OutputFormat::Html => Some(html::render_html(report)),
        OutputFormat::Markdown => Some(markdown::render_markdown(report)),
    }
}

} // verus!
