//! The HTML rendering of a report.

use super::pieces::{pieces_view, plain, push_piece, push_seconds, Piece, PieceView, Style};
use super::Report;
use crate::checker::{CheckResult, CheckStatus};
use crate::text::texts;
use crate::text::{chars_of, decimal, owned, push_decimal, push_str};
use vstd::prelude::*;

verus! {

/// The page up to the number of checks.
pub const PAGE_HEAD: &'static str = r##"<!DOCTYPE html>
<html lang="en">
<head>
    <meta charset="UTF-8">
    <meta name="viewport" content="width=device-width, initial-scale=1.0">
    <title>devcheck Report</title>
    <style>
        body {
            font-family: -apple-system, BlinkMacSystemFont, 'Segoe UI', Roboto, sans-serif;
            max-width: 1200px;
            margin: 0 auto;
            padding: 20px;
            background: #f5f5f5;
        }
        .container {
            background: white;
            border-radius: 8px;
            padding: 30px;
            box-shadow: 0 2px 8px rgba(0,0,0,0.1);
        }
        h1 {
            color: #333;
            border-bottom: 3px solid #007acc;
            padding-bottom: 10px;
        }
        .summary {
            display: grid;
            grid-template-columns: repeat(auto-fit, minmax(200px, 1fr));
            gap: 20px;
            margin: 30px 0;
        }
        .stat {
            background: #f8f9fa;
            padding: 20px;
            border-radius: 6px;
            text-align: center;
        }
        .stat-value {
            font-size: 2em;
            font-weight: bold;
            margin: 10px 0;
        }
        .stat-label {
            color: #666;
            font-size: 0.9em;
        }
        .checks {
            margin-top: 30px;
        }
        .check {
            border: 1px solid #e1e4e8;
            border-radius: 6px;
            padding: 15px;
            margin: 10px 0;
        }
        .check-header {
            display: flex;
            align-items: center;
            font-weight: 500;
        }
        .status {
            padding: 4px 12px;
            border-radius: 4px;
            font-size: 0.85em;
            margin-left: auto;
        }
        .passed {
            background: #d4edda;
            color: #155724;
        }
        .failed {
            background: #f8d7da;
            color: #721c24;
        }
        .duration {
            color: #666;
            font-size: 0.9em;
            margin-left: 10px;
        }
        .errors {
            margin-top: 10px;
            padding: 10px;
            background: #fff3cd;
            border-left: 4px solid #ffc107;
            font-family: monospace;
            font-size: 0.9em;
        }
        .footer {
            margin-top: 30px;
            padding-top: 20px;
            border-top: 1px solid #e1e4e8;
            color: #666;
            font-size: 0.9em;
        }
    </style>
</head>
<body>
    <div class="container">
        <h1>🔍 devcheck Report</h1>
        
        <div class="summary">
            <div class="stat">
                <div class="stat-value">"##;

/// Between the number of checks and the number passed.
pub const AFTER_TOTAL: &'static str = r##"</div>
                <div class="stat-label">Total Checks</div>
            </div>
            <div class="stat">
                <div class="stat-value" style="color: #28a745;">"##;

/// Between the number passed and the number failed.
pub const AFTER_PASSED: &'static str = r##"</div>
                <div class="stat-label">Passed</div>
            </div>
            <div class="stat">
                <div class="stat-value" style="color: #dc3545;">"##;

/// Between the number failed and the duration.
pub const AFTER_FAILED: &'static str = r##"</div>
                <div class="stat-label">Failed</div>
            </div>
            <div class="stat">
                <div class="stat-value">"##;

/// From the duration to the list of checks.
pub const AFTER_DURATION: &'static str = r##"s</div>
                <div class="stat-label">Duration</div>
            </div>
        </div>

        <div class="checks">
            <h2>Check Results</h2>
"##;
/// Opens one check's entry, up to its name.
pub const CHECK_OPEN: &'static str = r##"
            <div class="check">
                <div class="check-header">
                    <span>"##;

/// Between a check's name and its duration.
pub const CHECK_AFTER_NAME: &'static str = r##"</span>
                    <span class="duration">"##;

/// Between a check's duration and its status class.
pub const CHECK_AFTER_DURATION: &'static str = r##"s</span>
                    <span class="status "##;

/// Between a check's status and its errors.
pub const CHECK_AFTER_STATUS: &'static str = r##"</span>
                </div>
                "##;

/// Closes one check's entry.
pub const CHECK_CLOSE: &'static str = r##"
            </div>"##;

/// Opens the error box of a check.
pub const ERRORS_OPEN: &'static str = r##"
                <div class="errors">
                    "##;

/// Closes the error box of a check.
pub const ERRORS_CLOSE: &'static str = r##"
                </div>"##;

/// From the end of the list of checks to the version.
pub const FOOTER_OPEN: &'static str = r##"
        </div>

        <div class="footer">
            Generated by devcheck v"##;

/// From the timestamp to the end of the page, with the final line feed.
pub const FOOTER_CLOSE: &'static str = r##"
        </div>
    </div>
</body>
</html>
"##;

/// What a character becomes in HTML text: the five markup characters
/// become entities, a line feed becomes a line break, a carriage return
/// is dropped, any other character stays.
pub open spec fn escape_char(c: char) -> Seq<char> {
    if c == '&' {
        seq!['&', 'a', 'm', 'p', ';']
    } else if c == '<' {
        seq!['&', 'l', 't', ';']
    } else if c == '>' {
        seq!['&', 'g', 't', ';']
    } else if c == '"' {
        seq!['&', 'q', 'u', 'o', 't', ';']
    } else if c == '\'' {
        seq!['&', '#', '3', '9', ';']
    } else if c == '\n' {
        seq!['<', 'b', 'r', '>']
    } else if c == '\r' {
        seq![]
    } else {
        seq![c]
    }
}

/// `s` escaped for HTML, character by character.
pub open spec fn html_escaped(s: Seq<char>) -> Seq<char>
    decreases s.len(),
{
    if s.len() == 0 {
        seq![]
    } else {
        html_escaped(s.drop_last()) + escape_char(s.last())
    }
}

/// Appends `t` escaped for HTML to `s`.
pub fn push_escaped(s: &mut String, t: &str)
    ensures
        final(s)@ == old(s)@ + html_escaped(t@),
{
    let v = chars_of(t);
    let mut i: usize = 0;
    assert(v@.take(0) =~= Seq::<char>::empty());
    while i < v.len()
        invariant
            v@ == t@,
            i <= v@.len(),
            s@ == old(s)@ + html_escaped(v@.take(i as int)),
        decreases v@.len() - i,
    {
        let c = v[i];
        let ghost before = s@;
        if c == '&' {
            s.push('&'); s.push('a'); s.push('m'); s.push('p'); s.push(';');
        } else if c == '<' {
            s.push('&'); s.push('l'); s.push('t'); s.push(';');
        } else if c == '>' {
            s.push('&'); s.push('g'); s.push('t'); s.push(';');
        } else if c == '"' {
            s.push('&'); s.push('q'); s.push('u'); s.push('o'); s.push('t'); s.push(';');
        } else if c == '\'' {
            s.push('&'); s.push('#'); s.push('3'); s.push('9'); s.push(';');
        } else if c == '\n' {
            s.push('<'); s.push('b'); s.push('r'); s.push('>');
        } else if c == '\r' {
        } else {
            s.push(c);
        }
        proof {
            assert(s@ =~= before + escape_char(c));
            assert(v@.take(i + 1).drop_last() =~= v@.take(i as int));
        }
        i = i + 1;
    }
    assert(v@.take(v@.len() as int) =~= v@);
}

/// `s` escaped for HTML.
pub fn html_escape(s: &str) -> (r: String)
    ensures
        r@ == html_escaped(s@),
{
    let mut r = String::new();
    push_escaped(&mut r, s);
    r
}

/// The class of a check's status badge.
pub open spec fn status_class(st: CheckStatus) -> Seq<char> {
    match st {
        CheckStatus::Passed => "passed"@,
        CheckStatus::Failed => "failed"@,
        CheckStatus::Skipped => "skipped"@,
    }
}

/// A status in capitals.
pub open spec fn status_word(st: CheckStatus) -> Seq<char> {
    match st {
        CheckStatus::Passed => "PASSED"@,
        CheckStatus::Failed => "FAILED"@,
        CheckStatus::Skipped => "SKIPPED"@,
    }
}

/// Appends the capitalized name of a status.
pub fn push_status_word(s: &mut String, st: CheckStatus)
    ensures
        final(s)@ == old(s)@ + status_word(st),
{
    match st {
        CheckStatus::Passed => push_str(s, "PASSED"),
        CheckStatus::Failed => push_str(s, "FAILED"),
        CheckStatus::Skipped => push_str(s, "SKIPPED"),
    }
}

/// The error messages `es`, each escaped in its own block.
pub open spec fn error_divs(es: Seq<Seq<char>>) -> Seq<char>
    decreases es.len(),
{
    if es.len() == 0 {
        seq![]
    } else {
        error_divs(es.drop_last()) + "<div>"@ + html_escaped(es.last()) + "</div>"@
    }
}

/// The error box of a check with the errors `es`; nothing when it has none.
pub open spec fn errors_block(es: Seq<Seq<char>>) -> Seq<char> {
    if es.len() == 0 {
        seq![]
    } else {
        ERRORS_OPEN@ + error_divs(es) + ERRORS_CLOSE@
    }
}

/// The entry of one check.
pub open spec fn html_check(c: CheckResult) -> Seq<PieceView> {
    seq![
        plain(CHECK_OPEN@ + html_escaped(c.name@) + CHECK_AFTER_NAME@),
        PieceView::Seconds(c.duration, 0, 2),
        plain(CHECK_AFTER_DURATION@ + status_class(c.status) + "\">"@ + status_word(c.status)
            + CHECK_AFTER_STATUS@ + errors_block(texts(c.errors@)) + CHECK_CLOSE@),
    ]
}

/// The entries of the checks `cs`, in order.
pub open spec fn html_checks(cs: Seq<CheckResult>) -> Seq<PieceView>
    decreases cs.len(),
{
    if cs.len() == 0 {
        seq![]
    } else {
        html_checks(cs.drop_last()) + html_check(cs.last())
    }
}

/// The HTML page of a report, as printed (with a final line feed).
pub open spec fn html_view(r: Report) -> Seq<PieceView> {
    seq![
        plain(PAGE_HEAD@ + decimal(r.summary.total as nat) + AFTER_TOTAL@ + decimal(
            r.summary.passed as nat,
        ) + AFTER_PASSED@ + decimal(r.summary.failed as nat) + AFTER_FAILED@),
        PieceView::Seconds(r.duration, 0, 2),
        plain(AFTER_DURATION@),
    ] + html_checks(r.checks@) + seq![
        plain(FOOTER_OPEN@ + r.version@ + " at "@ + r.timestamp@ + FOOTER_CLOSE@),
    ]
}

/// The error box of a check.
fn push_errors_block(s: &mut String, es: &Vec<String>)
    ensures
        final(s)@ == old(s)@ + errors_block(texts(es@)),
{
    if es.len() == 0 {
        return;
    }
    push_str(s, ERRORS_OPEN);
    let ghost start = s@;
    let mut i: usize = 0;
    assert(texts(es@).take(0) =~= Seq::<Seq<char>>::empty());
    while i < es.len()
        invariant
            i <= es@.len(),
            s@ == start + error_divs(texts(es@).take(i as int)),
        decreases es@.len() - i,
    {
        push_str(s, "<div>");
        push_escaped(s, es[i].as_str());
        push_str(s, "</div>");
        assert(texts(es@).take(i + 1).drop_last() =~= texts(es@).take(i as int));
        assert(texts(es@).take(i + 1).last() == es@[i as int]@);
        i = i + 1;
    }
    assert(texts(es@).take(es@.len() as int) =~= texts(es@));
    push_str(s, ERRORS_CLOSE);
}

/// Appends the entry of one check.
fn push_check(out: &mut Vec<Piece>, c: &CheckResult)
    ensures
        pieces_view(final(out)@) == pieces_view(old(out)@) + html_check(*c),
{
    let mut head = owned(CHECK_OPEN);
    push_escaped(&mut head, c.name.as_str());
    push_str(&mut head, CHECK_AFTER_NAME);
    push_piece(out, Piece::Text { style: Style::Plain, text: head });
    push_seconds(out, c.duration, 0, 2);
    let mut tail = owned(CHECK_AFTER_DURATION);
    match c.status {
        CheckStatus::Passed => push_str(&mut tail, "passed"),
        CheckStatus::Failed => push_str(&mut tail, "failed"),
        CheckStatus::Skipped => push_str(&mut tail, "skipped"),
    }
    push_str(&mut tail, "\">");
    push_status_word(&mut tail, c.status);
    push_str(&mut tail, CHECK_AFTER_STATUS);
    push_errors_block(&mut tail, &c.errors);
    push_str(&mut tail, CHECK_CLOSE);
    let ghost before = pieces_view(out@);
    push_piece(out, Piece::Text { style: Style::Plain, text: tail });
    assert(pieces_view(out@) =~= before.push(plain(tail@)));
}

/// The HTML page of `report`.
pub fn render_html(report: &Report) -> (v: Vec<Piece>)
    ensures
        pieces_view(v@) == html_view(*report),
{
    let mut out: Vec<Piece> = Vec::new();
    let mut head = owned(PAGE_HEAD);
    push_decimal(&mut head, report.summary.total as u64);
    push_str(&mut head, AFTER_TOTAL);
    push_decimal(&mut head, report.summary.passed as u64);
    push_str(&mut head, AFTER_PASSED);
    push_decimal(&mut head, report.summary.failed as u64);
    push_str(&mut head, AFTER_FAILED);
    push_piece(&mut out, Piece::Text { style: Style::Plain, text: head });
    push_seconds(&mut out, report.duration, 0, 2);
    push_piece(&mut out, Piece::Text { style: Style::Plain, text: owned(AFTER_DURATION) });
    let ghost start = pieces_view(out@);
    let cs = &report.checks;
    let mut i: usize = 0;
    assert(cs@.take(0) =~= Seq::<CheckResult>::empty());
    while i < cs.len()
        invariant
            i <= cs@.len(),
            pieces_view(out@) == start + html_checks(cs@.take(i as int)),
        decreases cs@.len() - i,
    {
        push_check(&mut out, &cs[i]);
        assert(cs@.take(i + 1).drop_last() =~= cs@.take(i as int));
        i = i + 1;
    }
    assert(cs@.take(cs@.len() as int) =~= cs@);
    let mut foot = owned(FOOTER_OPEN);
    push_str(&mut foot, report.version.as_str());
    push_str(&mut foot, " at ");
    push_str(&mut foot, report.timestamp.as_str());
    push_str(&mut foot, FOOTER_CLOSE);
    push_piece(&mut out, Piece::Text { style: Style::Plain, text: foot });
    out
}

/// Escaping leaves no quote character and no carriage return behind.
pub proof fn lemma_escaped_has_no_quotes(s: Seq<char>)
    ensures
        forall|i: int|
            0 <= i < html_escaped(s).len() ==> #[trigger] html_escaped(s)[i] != '"'
                && html_escaped(s)[i] != '\'' && html_escaped(s)[i] != '\r',
    decreases s.len(),
{
    if s.len() > 0 {
        lemma_escaped_has_no_quotes(s.drop_last());
        let a = html_escaped(s.drop_last());
        let b = escape_char(s.last());
        assert forall|i: int| 0 <= i < (a + b).len() implies #[trigger] (a + b)[i] != '"' && (a
            + b)[i] != '\'' && (a + b)[i] != '\r' by {
            if i >= a.len() {
                assert((a + b)[i] == b[i - a.len()]);
            } else {
                assert((a + b)[i] == a[i]);
            }
        }
    }
}

/// Text without markup characters, line feeds or carriage returns is
/// left as it is.
pub proof fn lemma_plain_text_unchanged(s: Seq<char>)
    requires
        forall|i: int|
            0 <= i < s.len() ==> #[trigger] s[i] != '&' && s[i] != '<' && s[i] != '>' && s[i]
                != '"' && s[i] != '\'' && s[i] != '\n' && s[i] != '\r',
    ensures
        html_escaped(s) == s,
    decreases s.len(),
{
    if s.len() > 0 {
        let init = s.drop_last();
        assert forall|i: int| 0 <= i < init.len() implies #[trigger] init[i] != '&' && init[i]
            != '<' && init[i] != '>' && init[i] != '"' && init[i] != '\'' && init[i] != '\n'
            && init[i] != '\r' by {
            assert(init[i] == s[i]);
        }
        lemma_plain_text_unchanged(init);
        assert(s.last() == s[s.len() - 1]);
        assert(init.push(s.last()) =~= s);
    }
}

/// `s` without its carriage returns.
pub open spec fn without_cr(s: Seq<char>) -> Seq<char>
    decreases s.len(),
{
    if s.len() == 0 {
        seq![]
    } else {
        (if s[0] == '\r' {
            seq![]
        } else {
            seq![s[0]]
        }) + without_cr(s.drop_first())
    }
}

proof fn lemma_escaped_front(c: char, r: Seq<char>)
    ensures
        html_escaped(seq![c] + r) == escape_char(c) + html_escaped(r),
    decreases r.len(),
{
    if r.len() == 0 {
        assert(r =~= Seq::<char>::empty());
        assert(seq![c] + r =~= seq![c]);
        assert(seq![c].drop_last() =~= Seq::<char>::empty());
        assert(seq![c].last() == c);
        assert(html_escaped(Seq::<char>::empty()) =~= Seq::<char>::empty());
        assert(html_escaped(seq![c]) =~= Seq::<char>::empty() + escape_char(c));
        assert(escape_char(c) + Seq::<char>::empty() =~= escape_char(c));
    } else {
        let whole = seq![c] + r;
        assert(whole.drop_last() =~= seq![c] + r.drop_last());
        assert(whole.last() == r.last());
        lemma_escaped_front(c, r.drop_last());
        assert(html_escaped(whole) == html_escaped(whole.drop_last()) + escape_char(whole.last()));
        assert(html_escaped(r) == html_escaped(r.drop_last()) + escape_char(r.last()));
        assert(escape_char(c) + html_escaped(r.drop_last()) + escape_char(r.last()) =~= escape_char(c)
            + html_escaped(r));
    }
}

/// `t` with each occurrence of the non-empty `p` replaced by `r`, the
/// occurrences found from the left without overlap, as `str::replace`
/// finds them.
pub open spec fn replace_all(t: Seq<char>, p: Seq<char>, r: Seq<char>) -> Seq<char>
    decreases t.len(),
{
    if t.len() == 0 || p.len() == 0 {
        t
    } else if p.len() <= t.len() && t.take(p.len() as int) == p {
        r + replace_all(t.skip(p.len() as int), p, r)
    } else {
        seq![t[0]] + replace_all(t.drop_first(), p, r)
    }
}

/// HTML text read back by replacing, in this order, every `<br>` by a line
/// feed, `&#39;` by `'`, `&quot;` by `"`, `&gt;` by `>`, `&lt;` by `<` and
/// finally `&amp;` by `&`.
pub open spec fn html_unescaped(t: Seq<char>) -> Seq<char> {
    replace_all(
        replace_all(
            replace_all(
                replace_all(
                    replace_all(replace_all(t, unescape_pattern(1), unescape_char(1)), unescape_pattern(2), unescape_char(2)),
                    unescape_pattern(3),
                    unescape_char(3),
                ),
                unescape_pattern(4),
                unescape_char(4),
            ),
            unescape_pattern(5),
            unescape_char(5),
        ),
        unescape_pattern(6),
        unescape_char(6),
    )
}

/// The text that step `k` of reading HTML back replaces.
pub open spec fn unescape_pattern(k: int) -> Seq<char> {
    if k == 1 {
        seq!['<', 'b', 'r', '>']
    } else if k == 2 {
        seq!['&', '#', '3', '9', ';']
    } else if k == 3 {
        seq!['&', 'q', 'u', 'o', 't', ';']
    } else if k == 4 {
        seq!['&', 'g', 't', ';']
    } else if k == 5 {
        seq!['&', 'l', 't', ';']
    } else {
        seq!['&', 'a', 'm', 'p', ';']
    }
}

/// What step `k` of reading HTML back puts in its place.
pub open spec fn unescape_char(k: int) -> Seq<char> {
    if k == 1 {
        seq!['\n']
    } else if k == 2 {
        seq!['\'']
    } else if k == 3 {
        seq!['"']
    } else if k == 4 {
        seq!['>']
    } else if k == 5 {
        seq!['<']
    } else {
        seq!['&']
    }
}

/// The step of reading HTML back that restores `c`, 0 for a character that
/// escaping keeps.
spec fn step_of(c: char) -> int {
    if c == '\n' {
        1
    } else if c == '\'' {
        2
    } else if c == '"' {
        3
    } else if c == '>' {
        4
    } else if c == '<' {
        5
    } else if c == '&' {
        6
    } else {
        0
    }
}

/// What `c` has become, escaped, after `k` steps of reading back.
spec fn stage(k: int, c: char) -> Seq<char> {
    if c == '\r' {
        seq![]
    } else if step_of(c) == 0 {
        seq![c]
    } else if step_of(c) <= k {
        unescape_char(step_of(c))
    } else {
        unescape_pattern(step_of(c))
    }
}

/// The characters of `s`, each as it is after `k` steps.
spec fn staged(k: int, s: Seq<char>) -> Seq<char>
    decreases s.len(),
{
    if s.len() == 0 {
        seq![]
    } else {
        stage(k, s[0]) + staged(k, s.drop_first())
    }
}

proof fn lemma_replace_skips(a: Seq<char>, x: Seq<char>, p: Seq<char>, r: Seq<char>)
    requires
        p.len() > 0,
        forall|i: int| 0 <= i < a.len() ==> a[i] != p[0],
    ensures
        replace_all(a + x, p, r) == a + replace_all(x, p, r),
    decreases a.len(),
{
    let t = a + x;
    if a.len() == 0 {
        assert(t =~= x);
        assert(a + replace_all(x, p, r) =~= replace_all(x, p, r));
    } else {
        assert(t[0] == a[0]);
        if p.len() <= t.len() {
            assert(t.take(p.len() as int)[0] != p[0]);
        }
        let rest = a.drop_first();
        assert(t.drop_first() =~= rest + x);
        lemma_replace_skips(rest, x, p, r);
        assert(seq![a[0]] + (rest + replace_all(x, p, r)) =~= a + replace_all(x, p, r));
    }
}

proof fn lemma_replace_near_miss(a: Seq<char>, x: Seq<char>, p: Seq<char>, r: Seq<char>)
    requires
        p.len() >= 2,
        a.len() >= 2,
        a[0] == p[0],
        a[1] != p[1],
        forall|i: int| 1 <= i < a.len() ==> a[i] != p[0],
    ensures
        replace_all(a + x, p, r) == a + replace_all(x, p, r),
{
    let t = a + x;
    assert(t[0] == a[0]);
    if p.len() <= t.len() {
        assert(t.take(p.len() as int)[1] == a[1]);
    }
    let rest = a.drop_first();
    assert(t.drop_first() =~= rest + x);
    lemma_replace_skips(rest, x, p, r);
    assert(seq![a[0]] + (rest + replace_all(x, p, r)) =~= a + replace_all(x, p, r));
}

proof fn lemma_replace_match(x: Seq<char>, p: Seq<char>, r: Seq<char>)
    requires
        p.len() > 0,
    ensures
        replace_all(p + x, p, r) == r + replace_all(x, p, r),
{
    let t = p + x;
    assert(t.take(p.len() as int) =~= p);
    assert(t.skip(p.len() as int) =~= x);
}

#[verifier::rlimit(40)]
proof fn lemma_stage_step(k: int, c: char, x: Seq<char>)
    requires
        1 <= k <= 6,
    ensures
        replace_all(stage(k - 1, c) + x, unescape_pattern(k), unescape_char(k)) == stage(k, c)
            + replace_all(x, unescape_pattern(k), unescape_char(k)),
{
    let p = unescape_pattern(k);
    let r = unescape_char(k);
    let a = stage(k - 1, c);
    let n = step_of(c);
    if c == '\r' || n == 0 || n < k {
        assert(stage(k, c) == a);
        assert(forall|i: int| 0 <= i < a.len() ==> a[i] != p[0]);
        lemma_replace_skips(a, x, p, r);
    } else if n == k {
        assert(a == p);
        lemma_replace_match(x, p, r);
    } else {
        assert(stage(k, c) == a);
        assert(a == unescape_pattern(n));
        if k == 1 {
            assert(forall|i: int| 0 <= i < a.len() ==> a[i] != p[0]);
            lemma_replace_skips(a, x, p, r);
        } else {
            assert(a[0] == p[0]);
            assert(a[1] != p[1]);
            assert(forall|i: int| 1 <= i < a.len() ==> a[i] != p[0]);
            lemma_replace_near_miss(a, x, p, r);
        }
    }
}

proof fn lemma_staged_step(k: int, s: Seq<char>)
    requires
        1 <= k <= 6,
    ensures
        replace_all(staged(k - 1, s), unescape_pattern(k), unescape_char(k)) == staged(k, s),
    decreases s.len(),
{
    if s.len() > 0 {
        lemma_staged_step(k, s.drop_first());
        lemma_stage_step(k, s[0], staged(k - 1, s.drop_first()));
    }
}

proof fn lemma_staged_ends(s: Seq<char>)
    ensures
        staged(0, s) == html_escaped(s),
        staged(6, s) == without_cr(s),
    decreases s.len(),
{
    if s.len() > 0 {
        let rest = s.drop_first();
        lemma_staged_ends(rest);
        assert(s =~= seq![s[0]] + rest);
        lemma_escaped_front(s[0], rest);
        assert(stage(0, s[0]) == escape_char(s[0]));
        assert(stage(6, s[0]) == (if s[0] == '\r' {
            seq![]
        } else {
            seq![s[0]]
        }));
    }
}

/// Reading escaped text back, by replacing `<br>`, `&#39;`, `&quot;`,
/// `&gt;`, `&lt;` and then `&amp;` with the characters they stand for,
/// gives the original text, less its carriage returns (which escaping
/// drops).
pub proof fn lemma_unescape_escaped(s: Seq<char>)
    ensures
        html_unescaped(html_escaped(s)) == without_cr(s),
{
    lemma_staged_ends(s);
    lemma_staged_step(1, s);
    lemma_staged_step(2, s);
    lemma_staged_step(3, s);
    lemma_staged_step(4, s);
    lemma_staged_step(5, s);
    lemma_staged_step(6, s);
}

} // verus!
