//! The Markdown rendering of a report.

use super::html::{push_status_word, status_word};
use super::pieces::{pieces_view, plain, push_piece, push_seconds, Piece, PieceView, Style};
use super::Report;
use crate::checker::{CheckResult, CheckStatus};
use crate::text::texts;
use crate::text::{decimal, owned, push_decimal, push_str};
use vstd::prelude::*;

verus! {

/// The badge of a status.
pub open spec fn status_badge(st: CheckStatus) -> Seq<char> {
    match st {
        CheckStatus::Passed => "✅"@,
        CheckStatus::Failed => "❌"@,
        CheckStatus::Skipped => "⏭️"@,
    }
}

/// The list of error messages `es`, one item each.
pub open spec fn error_items(es: Seq<Seq<char>>) -> Seq<char>
    decreases es.len(),
{
    if es.len() == 0 {
        seq![]
    } else {
        error_items(es.drop_last()) + "- "@ + es.last() + "\n"@
    }
}

/// The part of a check's section after its duration: its errors, when it
/// has some, and its output in a collapsed block, when there is any.
pub open spec fn check_details(c: CheckResult) -> Seq<char> {
    let es = texts(c.errors@);
    "s\n"@ + (if es.len() == 0 {
        seq![]
    } else {
        "\n**Errors:**\n\n"@ + error_items(es)
    }) + (if c.output@.len() == 0 {
        seq![]
    } else {
        "\n<details>\n<summary>View Output</summary>\n\n```\n"@ + c.output@
            + "\n```\n\n</details>\n"@
    }) + "\n"@
}

/// The section of one check.
pub open spec fn markdown_check(c: CheckResult) -> Seq<PieceView> {
    seq![
        plain("### "@ + status_badge(c.status) + " "@ + c.name@ + " - "@ + status_word(c.status)
            + "\n\n- **Duration**: "@),
        PieceView::Seconds(c.duration, 0, 2),
        plain(check_details(c)),
    ]
}

/// The sections of the checks `cs`, in order.
pub open spec fn markdown_checks(cs: Seq<CheckResult>) -> Seq<PieceView>
    decreases cs.len(),
{
    if cs.len() == 0 {
        seq![]
    } else {
        markdown_checks(cs.drop_last()) + markdown_check(cs.last())
    }
}

/// The Markdown document of a report, as printed (with a final line feed).
pub open spec fn markdown_view(r: Report) -> Seq<PieceView> {
    seq![
        plain("# devcheck Report\n\n## Summary\n\n- **Total Checks**: "@ + decimal(
            r.summary.total as nat,
        ) + "\n- **Passed**: ✅ "@ + decimal(r.summary.passed as nat) + "\n- **Failed**: ❌ "@
            + decimal(r.summary.failed as nat) + "\n- **Duration**: "@),
        PieceView::Seconds(r.duration, 0, 2),
        plain("s\n- **Timestamp**: "@ + r.timestamp@ + "\n\n## Check Results\n\n"@),
    ] + markdown_checks(r.checks@) + seq![
        plain("\n---\n\n*Generated by devcheck v"@ + r.version@ + "*\n\n"@),
    ]
}

/// Appends the rest of a check's section after its duration.
fn push_details(s: &mut String, c: &CheckResult)
    ensures
        final(s)@ == old(s)@ + check_details(*c),
{
    push_str(s, "s\n");
    if c.errors.len() > 0 {
        push_str(s, "\n**Errors:**\n\n");
        let ghost start = s@;
        let es = &c.errors;
        let mut i: usize = 0;
        assert(texts(es@).take(0) =~= Seq::<Seq<char>>::empty());
        while i < es.len()
            invariant
                i <= es@.len(),
                s@ == start + error_items(texts(es@).take(i as int)),
            decreases es@.len() - i,
        {
            push_str(s, "- ");
            push_str(s, es[i].as_str());
            push_str(s, "\n");
            assert(texts(es@).take(i + 1).drop_last() =~= texts(es@).take(i as int));
            assert(texts(es@).take(i + 1).last() == es@[i as int]@);
            i = i + 1;
        }
        assert(texts(es@).take(es@.len() as int) =~= texts(es@));
    }
    if !c.output.as_str().is_empty() {
        push_str(s, "\n<details>\n<summary>View Output</summary>\n\n```\n");
        push_str(s, c.output.as_str());
        push_str(s, "\n```\n\n</details>\n");
    }
    push_str(s, "\n");
}

/// Appends the section of one check.
fn push_check(out: &mut Vec<Piece>, c: &CheckResult)
    ensures
        pieces_view(final(out)@) == pieces_view(old(out)@) + markdown_check(*c),
{
    let mut head = owned("### ");
    match c.status {
        CheckStatus::Passed => push_str(&mut head, "✅"),
        CheckStatus::Failed => push_str(&mut head, "❌"),
        CheckStatus::Skipped => push_str(&mut head, "⏭️"),
    }
    push_str(&mut head, " ");
    push_str(&mut head, c.name.as_str());
    push_str(&mut head, " - ");
    push_status_word(&mut head, c.status);
    push_str(&mut head, "\n\n- **Duration**: ");
    push_piece(out, Piece::Text { style: Style::Plain, text: head });
    push_seconds(out, c.duration, 0, 2);
    let mut tail = String::new();
    push_details(&mut tail, c);
    let ghost before = pieces_view(out@);
    push_piece(out, Piece::Text { style: Style::Plain, text: tail });
    assert(pieces_view(out@) =~= before.push(plain(tail@)));
}

/// The Markdown document of `report`.
pub fn render_markdown(report: &Report) -> (v: Vec<Piece>)
    ensures
        pieces_view(v@) == markdown_view(*report),
{
    let mut out: Vec<Piece> = Vec::new();
    let mut head = owned("# devcheck Report\n\n## Summary\n\n- **Total Checks**: ");
    push_decimal(&mut head, report.summary.total as u64);
    push_str(&mut head, "\n- **Passed**: ✅ ");
    push_decimal(&mut head, report.summary.passed as u64);
    push_str(&mut head, "\n- **Failed**: ❌ ");
    push_decimal(&mut head, report.summary.failed as u64);
    push_str(&mut head, "\n- **Duration**: ");
    push_piece(&mut out, Piece::Text { style: Style::Plain, text: head });
    push_seconds(&mut out, report.duration, 0, 2);
    let mut mid = owned("s\n- **Timestamp**: ");
    push_str(&mut mid, report.timestamp.as_str());
    push_str(&mut mid, "\n\n## Check Results\n\n");
    push_piece(&mut out, Piece::Text { style: Style::Plain, text: mid });
    let ghost start = pieces_view(out@);
    let cs = &report.checks;
    let mut i: usize = 0;
    assert(cs@.take(0) =~= Seq::<CheckResult>::empty());
    while i < cs.len()
        invariant
            i <= cs@.len(),
            pieces_view(out@) == start + markdown_checks(cs@.take(i as int)),
        decreases cs@.len() - i,
    {
        push_check(&mut out, &cs[i]);
        assert(cs@.take(i + 1).drop_last() =~= cs@.take(i as int));
        i = i + 1;
    }
    assert(cs@.take(cs@.len() as int) =~= cs@);
    let mut foot = owned("\n---\n\n*Generated by devcheck v");
    push_str(&mut foot, report.version.as_str());
    push_str(&mut foot, "*\n\n");
    push_piece(&mut out, Piece::Text { style: Style::Plain, text: foot });
    out
}

} // verus!
