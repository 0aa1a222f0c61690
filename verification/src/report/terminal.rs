//! The terminal rendering of a report.

use super::pieces::{
    pieces_view, plain, push_number, push_piece, push_seconds, push_text, styled, Piece, PieceView,
    Style,
};
use super::Report;
use crate::checker::{first_n, CheckResult, CheckStatus};
use crate::text::texts;
use crate::text::{
    char_rows, chars_of, decimal, lines, owned, pad_right, push_padded, push_str, split_lines,
    string_of,
};
use vstd::prelude::*;

verus! {

/// The top of the banner.
pub const BOX_TOP: &'static str = "╭─────────────────────────────────────╮";

/// The title line of the banner.
pub const BOX_TITLE: &'static str = "│  devcheck - Rust Quality Checker    │";

/// The bottom of the banner.
pub const BOX_BOTTOM: &'static str = "╰─────────────────────────────────────╯";

/// The rule under the list of checks.
pub const RULE: &'static str = "───────────────────────────────────────";

/// How many output lines a failed check shows in verbose mode.
pub const OUTPUT_LINES_SHOWN: usize = 20;

/// The mark in front of a check's line.
pub open spec fn status_mark(st: CheckStatus) -> PieceView {
    match st {
        CheckStatus::Passed => styled(Style::Green, "✓"@),
        CheckStatus::Failed => styled(Style::Red, "✗"@),
        CheckStatus::Skipped => plain("-"@),
    }
}

/// The status at the end of a check's line.
pub open spec fn status_label(st: CheckStatus) -> PieceView {
    match st {
        CheckStatus::Passed => styled(Style::Green, "PASSED"@),
        CheckStatus::Failed => styled(Style::Red, "FAILED"@),
        CheckStatus::Skipped => plain("SKIPPED"@),
    }
}

/// The banner, unless quiet.
pub open spec fn banner(quiet: bool) -> Seq<PieceView> {
    if quiet {
        seq![]
    } else {
        seq![
            plain("\n"@),
            styled(Style::BrightBlue, BOX_TOP@),
            plain("\n"@),
            styled(Style::BrightBlue, BOX_TITLE@),
            plain("\n"@),
            styled(Style::BrightBlue, BOX_BOTTOM@),
            plain("\n\n"@),
        ]
    }
}

/// The line of one check: mark, name padded to eight characters, duration
/// right-aligned to five characters with one decimal, and status.
pub open spec fn check_line(c: CheckResult) -> Seq<PieceView> {
    seq![
        status_mark(c.status),
        plain(" cargo "@ + pad_right(c.name@, 8) + " ["@),
        PieceView::Seconds(c.duration, 5, 1),
        plain("s] "@),
        status_label(c.status),
        plain("\n"@),
    ]
}

/// The lines of the checks `cs`, in order.
pub open spec fn check_lines(cs: Seq<CheckResult>) -> Seq<PieceView>
    decreases cs.len(),
{
    if cs.len() == 0 {
        seq![]
    } else {
        check_lines(cs.drop_last()) + check_line(cs.last())
    }
}

/// The rule under the list of checks.
pub open spec fn rule_block() -> Seq<PieceView> {
    seq![plain("\n"@), styled(Style::BrightBlack, RULE@), plain("\n"@)]
}

/// The noun after a number of checks: singular for one.
pub open spec fn checks_word(n: nat) -> Seq<char> {
    if n == 1 {
        " check"@
    } else {
        " checks"@
    }
}

/// The noun after `n` checks.
fn checks_noun(n: usize) -> (w: &'static str)
    ensures
        w@ == checks_word(n as nat),
{
    if n == 1 {
        " check"
    } else {
        " checks"
    }
}

/// The summary, unless quiet.
pub open spec fn summary_block(r: Report, quiet: bool) -> Seq<PieceView> {
    if quiet {
        seq![]
    } else {
        seq![
            plain("\n"@),
            styled(Style::Bold, "Summary"@),
            plain(
                ":\n  Total:   "@ + decimal(r.summary.total as nat) + checks_word(
                    r.summary.total as nat,
                ) + "\n  Passed:  "@,
            ),
            styled(Style::Green, decimal(r.summary.passed as nat)),
            plain(checks_word(r.summary.passed as nat) + "\n  Failed:  "@),
        ] + (if r.summary.failed > 0 {
            seq![styled(Style::Red, decimal(r.summary.failed as nat))]
        } else {
            seq![plain(decimal(r.summary.failed as nat))]
        }) + seq![
            plain(checks_word(r.summary.failed as nat) + "\n  Time:    "@),
            PieceView::Seconds(r.duration, 0, 1),
            plain("s\n"@),
        ]
    }
}

/// The text that the pieces `ps` spell, whatever their styles, durations
/// left out.
pub open spec fn pieces_text(ps: Seq<PieceView>) -> Seq<char>
    decreases ps.len(),
{
    if ps.len() == 0 {
        seq![]
    } else {
        pieces_text(ps.drop_last()) + match ps.last() {
            PieceView::Text(_, t) => t,
            PieceView::Seconds(_, _, _) => Seq::<char>::empty(),
        }
    }
}

/// The summary reads the numbers of the report: the total, the passed and
/// the failed checks (the last one whether or not it is zero), each with
/// its noun, then the run's duration, which is the only duration in it.
/// Quiet mode leaves the summary out.
pub proof fn lemma_summary_reads_counts(r: Report)
    ensures
        pieces_text(summary_block(r, false)) == "\nSummary:\n  Total:   "@ + decimal(
            r.summary.total as nat,
        ) + checks_word(r.summary.total as nat) + "\n  Passed:  "@ + decimal(
            r.summary.passed as nat,
        ) + checks_word(r.summary.passed as nat) + "\n  Failed:  "@ + decimal(
            r.summary.failed as nat,
        ) + checks_word(r.summary.failed as nat) + "\n  Time:    s\n"@,
        summary_block(r, false)[7] == PieceView::Seconds(r.duration, 0, 1),
        summary_block(r, true).len() == 0,
{
    let b = summary_block(r, false);
    reveal_with_fuel(pieces_text, 10);
    reveal_strlit("\nSummary:\n  Total:   ");
    reveal_strlit("\n");
    reveal_strlit("Summary");
    reveal_strlit(":\n  Total:   ");
    reveal_strlit("\n  Time:    s\n");
    reveal_strlit("\n  Time:    ");
    reveal_strlit("s\n");
    assert(b.len() == 9);
    assert(pieces_text(b) =~= "\n"@ + "Summary"@ + (":\n  Total:   "@ + decimal(r.summary.total as nat)
        + checks_word(r.summary.total as nat) + "\n  Passed:  "@) + decimal(r.summary.passed as nat) + (
    checks_word(r.summary.passed as nat) + "\n  Failed:  "@) + decimal(r.summary.failed as nat) + (
    checks_word(r.summary.failed as nat) + "\n  Time:    "@) + "s\n"@);
}

/// The texts `ls`, each on its own dimmed, indented line.
pub open spec fn dimmed_lines(ls: Seq<Seq<char>>) -> Seq<PieceView>
    decreases ls.len(),
{
    if ls.len() == 0 {
        seq![]
    } else {
        dimmed_lines(ls.drop_last()) + seq![
            plain("    "@),
            styled(Style::Dimmed, ls.last()),
            plain("\n"@),
        ]
    }
}

/// The details of a check in the list of failures: its name and errors,
/// and in verbose mode the first lines of its output.  Nothing for a check
/// that did not fail.
pub open spec fn failure_detail(c: CheckResult, verbose: bool) -> Seq<PieceView> {
    if c.status == CheckStatus::Failed {
        seq![plain("  "@), styled(Style::Red, "✗"@), plain(" cargo "@ + c.name@ + "\n"@)]
            + dimmed_lines(texts(c.errors@)) + (if verbose && c.output@.len() > 0 {
            seq![plain("\n    "@), styled(Style::Dimmed, "Output"@), plain(":\n"@)] + dimmed_lines(
                first_n(lines(c.output@), OUTPUT_LINES_SHOWN as nat),
            )
        } else {
            seq![]
        })
    } else {
        seq![]
    }
}

/// The failure details of the checks `cs`, in order.
pub open spec fn failure_details(cs: Seq<CheckResult>, verbose: bool) -> Seq<PieceView>
    decreases cs.len(),
{
    if cs.len() == 0 {
        seq![]
    } else {
        failure_details(cs.drop_last(), verbose) + failure_detail(cs.last(), verbose)
    }
}

/// The list of failed checks, when some check failed.
pub open spec fn failure_block(r: Report, verbose: bool) -> Seq<PieceView> {
    if r.summary.failed > 0 {
        seq![plain("\n"@), styled(Style::RedBold, "Failed Checks"@), plain(":\n"@)]
            + failure_details(r.checks@, verbose)
    } else {
        seq![]
    }
}

/// The terminal report: banner, one line per check, rule, summary, failure
/// details, and an empty line.
pub open spec fn terminal_view(r: Report, quiet: bool, verbose: bool) -> Seq<PieceView> {
    banner(quiet) + check_lines(r.checks@) + rule_block() + summary_block(r, quiet)
        + failure_block(r, verbose) + seq![plain("\n"@)]
}

/// Appends the mark of a status.
fn push_mark(out: &mut Vec<Piece>, st: CheckStatus)
    ensures
        pieces_view(final(out)@) == pieces_view(old(out)@).push(status_mark(st)),
{
    match st {
        CheckStatus::Passed => push_text(out, Style::Green, "✓"),
        CheckStatus::Failed => push_text(out, Style::Red, "✗"),
        CheckStatus::Skipped => push_text(out, Style::Plain, "-"),
    }
}

/// Appends the label of a status.
fn push_label(out: &mut Vec<Piece>, st: CheckStatus)
    ensures
        pieces_view(final(out)@) == pieces_view(old(out)@).push(status_label(st)),
{
    match st {
        CheckStatus::Passed => push_text(out, Style::Green, "PASSED"),
        CheckStatus::Failed => push_text(out, Style::Red, "FAILED"),
        CheckStatus::Skipped => push_text(out, Style::Plain, "SKIPPED"),
    }
}

/// Appends the line of one check.
fn push_check_line(out: &mut Vec<Piece>, c: &CheckResult)
    ensures
        pieces_view(final(out)@) == pieces_view(old(out)@) + check_line(*c),
{
    let ghost before = pieces_view(out@);
    push_mark(out, c.status);
    let mut s = owned(" cargo ");
    push_padded(&mut s, c.name.as_str(), 8);
    push_str(&mut s, " [");
    push_piece(out, Piece::Text { style: Style::Plain, text: s });
    push_seconds(out, c.duration, 5, 1);
    push_text(out, Style::Plain, "s] ");
    push_label(out, c.status);
    push_text(out, Style::Plain, "\n");
    assert(pieces_view(out@) =~= before + check_line(*c));
}

/// Appends the texts `ls` as dimmed, indented lines.
fn push_dimmed_strings(out: &mut Vec<Piece>, ls: &Vec<String>)
    ensures
        pieces_view(final(out)@) == pieces_view(old(out)@) + dimmed_lines(texts(ls@)),
{
    let ghost start = pieces_view(out@);
    let mut i: usize = 0;
    assert(texts(ls@).take(0) =~= Seq::<Seq<char>>::empty());
    while i < ls.len()
        invariant
            i <= ls@.len(),
            pieces_view(out@) == start + dimmed_lines(texts(ls@).take(i as int)),
        decreases ls@.len() - i,
    {
        push_text(out, Style::Plain, "    ");
        push_text(out, Style::Dimmed, ls[i].as_str());
        push_text(out, Style::Plain, "\n");
        assert(texts(ls@).take(i + 1).drop_last() =~= texts(ls@).take(i as int));
        assert(texts(ls@).take(i + 1).last() == ls@[i as int]@);
        i = i + 1;
    }
    assert(texts(ls@).take(ls@.len() as int) =~= texts(ls@));
}

/// Appends the first lines of `output` as dimmed, indented lines.
fn push_output_lines(out: &mut Vec<Piece>, output: &String)
    ensures
        pieces_view(final(out)@) == pieces_view(old(out)@) + dimmed_lines(
            first_n(lines(output@), OUTPUT_LINES_SHOWN as nat),
        ),
{
    let chars = chars_of(output.as_str());
    let ls = split_lines(chars.as_slice());
    let ghost all = char_rows(ls@);
    let ghost shown = first_n(all, OUTPUT_LINES_SHOWN as nat);
    let n = if ls.len() < OUTPUT_LINES_SHOWN {
        ls.len()
    } else {
        OUTPUT_LINES_SHOWN
    };
    assert(shown =~= all.take(n as int));
    let ghost start = pieces_view(out@);
    let mut i: usize = 0;
    assert(shown.take(0) =~= Seq::<Seq<char>>::empty());
    while i < n
        invariant
            all == char_rows(ls@),
            n <= ls@.len(),
            shown == all.take(n as int),
            i <= n,
            pieces_view(out@) == start + dimmed_lines(shown.take(i as int)),
        decreases n - i,
    {
        let line = string_of(ls[i].as_slice());
        push_text(out, Style::Plain, "    ");
        push_text(out, Style::Dimmed, line.as_str());
        push_text(out, Style::Plain, "\n");
        assert(shown.take(i + 1).drop_last() =~= shown.take(i as int));
        assert(shown.take(i + 1).last() == ls@[i as int]@);
        i = i + 1;
    }
    assert(shown.take(n as int) =~= shown);
}

/// Appends the failure details of one check.
fn push_failure_detail(out: &mut Vec<Piece>, c: &CheckResult, verbose: bool)
    ensures
        pieces_view(final(out)@) == pieces_view(old(out)@) + failure_detail(*c, verbose),
{
    let ghost before = pieces_view(out@);
    if c.status != CheckStatus::Failed {
        assert(pieces_view(out@) =~= before + failure_detail(*c, verbose));
        return;
    }
    push_text(out, Style::Plain, "  ");
    push_text(out, Style::Red, "✗");
    let mut s = owned(" cargo ");
    push_str(&mut s, c.name.as_str());
    push_str(&mut s, "\n");
    push_piece(out, Piece::Text { style: Style::Plain, text: s });
    let ghost head = pieces_view(out@);
    assert(head =~= before + seq![plain("  "@), styled(Style::Red, "✗"@), plain(" cargo "@ + c.name@ + "\n"@)]);
    push_dimmed_strings(out, &c.errors);
    if verbose && !c.output.as_str().is_empty() {
        push_text(out, Style::Plain, "\n    ");
        push_text(out, Style::Dimmed, "Output");
        push_text(out, Style::Plain, ":\n");
        push_output_lines(out, &c.output);
    }
    assert(pieces_view(out@) =~= before + failure_detail(*c, verbose));
}

/// Appends the banner, unless quiet.
fn push_banner(out: &mut Vec<Piece>, quiet: bool)
    ensures
        pieces_view(final(out)@) == pieces_view(old(out)@) + banner(quiet),
{
    let ghost before = pieces_view(out@);
    if !quiet {
        push_text(out, Style::Plain, "\n");
        push_text(out, Style::BrightBlue, BOX_TOP);
        push_text(out, Style::Plain, "\n");
        push_text(out, Style::BrightBlue, BOX_TITLE);
        push_text(out, Style::Plain, "\n");
        push_text(out, Style::BrightBlue, BOX_BOTTOM);
        push_text(out, Style::Plain, "\n\n");
    }
    assert(pieces_view(out@) =~= before + banner(quiet));
}

/// Appends the lines of the checks `cs`.
fn push_check_lines(out: &mut Vec<Piece>, cs: &Vec<CheckResult>)
    ensures
        pieces_view(final(out)@) == pieces_view(old(out)@) + check_lines(cs@),
{
    let ghost start = pieces_view(out@);
    let mut i: usize = 0;
    assert(cs@.take(0) =~= Seq::<CheckResult>::empty());
    assert(start + check_lines(cs@.take(0)) =~= start);
    while i < cs.len()
        invariant
            i <= cs@.len(),
            pieces_view(out@) == start + check_lines(cs@.take(i as int)),
        decreases cs@.len() - i,
    {
        push_check_line(out, &cs[i]);
        assert(cs@.take(i + 1).drop_last() =~= cs@.take(i as int));
        i = i + 1;
    }
    assert(cs@.take(cs@.len() as int) =~= cs@);
}

/// Appends the rule under the list of checks.
fn push_rule(out: &mut Vec<Piece>)
    ensures
        pieces_view(final(out)@) == pieces_view(old(out)@) + rule_block(),
{
    let ghost before = pieces_view(out@);
    push_text(out, Style::Plain, "\n");
    push_text(out, Style::BrightBlack, RULE);
    push_text(out, Style::Plain, "\n");
    assert(pieces_view(out@) =~= before + rule_block());
}

/// Appends the summary, unless quiet.
fn push_summary(out: &mut Vec<Piece>, report: &Report, quiet: bool)
    ensures
        pieces_view(final(out)@) == pieces_view(old(out)@) + summary_block(*report, quiet),
{
    let ghost before = pieces_view(out@);
    if !quiet {
        push_text(out, Style::Plain, "\n");
        push_text(out, Style::Bold, "Summary");
        let mut s = owned(":\n  Total:   ");
        crate::text::push_decimal(&mut s, report.summary.total as u64);
        push_str(&mut s, checks_noun(report.summary.total));
        push_str(&mut s, "\n  Passed:  ");
        push_piece(out, Piece::Text { style: Style::Plain, text: s });
        push_number(out, Style::Green, report.summary.passed);
        let mut p = owned(checks_noun(report.summary.passed));
        push_str(&mut p, "\n  Failed:  ");
        push_piece(out, Piece::Text { style: Style::Plain, text: p });
        if report.summary.failed > 0 {
            push_number(out, Style::Red, report.summary.failed);
        } else {
            push_number(out, Style::Plain, report.summary.failed);
        }
        let mut f = owned(checks_noun(report.summary.failed));
        push_str(&mut f, "\n  Time:    ");
        push_piece(out, Piece::Text { style: Style::Plain, text: f });
        push_seconds(out, report.duration, 0, 1);
        push_text(out, Style::Plain, "s\n");
    }
    assert(pieces_view(out@) =~= before + summary_block(*report, quiet));
}

/// Appends the list of failed checks, when some check failed.
fn push_failures(out: &mut Vec<Piece>, report: &Report, verbose: bool)
    ensures
        pieces_view(final(out)@) == pieces_view(old(out)@) + failure_block(*report, verbose),
{
    let ghost before = pieces_view(out@);
    if report.has_failures() {
        push_text(out, Style::Plain, "\n");
        push_text(out, Style::RedBold, "Failed Checks");
        push_text(out, Style::Plain, ":\n");
        let ghost start = pieces_view(out@);
        let cs = &report.checks;
        let mut k: usize = 0;
        assert(cs@.take(0) =~= Seq::<CheckResult>::empty());
        assert(start + failure_details(cs@.take(0), verbose) =~= start);
        while k < cs.len()
            invariant
                k <= cs@.len(),
                pieces_view(out@) == start + failure_details(cs@.take(k as int), verbose),
            decreases cs@.len() - k,
        {
            push_failure_detail(out, &cs[k], verbose);
            assert(cs@.take(k + 1).drop_last() =~= cs@.take(k as int));
            k = k + 1;
        }
        assert(cs@.take(cs@.len() as int) =~= cs@);
    }
    assert(pieces_view(out@) =~= before + failure_block(*report, verbose));
}

/// The terminal report of `report`, with the banner and summary left out
/// when `quiet`, and the output of failed checks shown when `verbose`.
pub fn render_terminal(report: &Report, quiet: bool, verbose: bool) -> (v: Vec<Piece>)
    ensures
        pieces_view(v@) == terminal_view(*report, quiet, verbose),
{
    let mut out: Vec<Piece> = Vec::new();
    assert(pieces_view(out@) =~= Seq::<PieceView>::empty());
    push_banner(&mut out, quiet);
    push_check_lines(&mut out, &report.checks);
    push_rule(&mut out);
    push_summary(&mut out, report, quiet);
    push_failures(&mut out, report, verbose);
    push_text(&mut out, Style::Plain, "\n");
    assert(pieces_view(out@) =~= terminal_view(*report, quiet, verbose));
    out
}

/// Quiet mode leaves out the banner and the summary and keeps the rest:
/// the check lines, the rule and the failure details.
pub proof fn lemma_quiet_keeps_checks_and_failures(r: Report, verbose: bool)
    ensures
        terminal_view(r, true, verbose) == check_lines(r.checks@) + rule_block() + failure_block(
            r,
            verbose,
        ) + seq![plain("\n"@)],
        terminal_view(r, false, verbose) == banner(false) + check_lines(r.checks@) + rule_block()
            + summary_block(r, false) + failure_block(r, verbose) + seq![plain("\n"@)],
{
    assert(banner(true) + check_lines(r.checks@) =~= check_lines(r.checks@));
    assert(check_lines(r.checks@) + rule_block() + summary_block(r, true) =~= check_lines(r.checks@)
        + rule_block());
}

} // verus!
