//! The checks: which command each runs, and how its outcome is read.
//!
//! A check is run in two steps.  `Checker::command` says which program to
//! start with which arguments; the caller runs it and hands the exit
//! success, the raw output and the elapsed time to
//! `Checker::check_result`, which turns them into a `CheckResult`.

pub mod build_check;
pub mod clippy;
pub mod custom;
pub mod fmt;
pub mod test;

pub use build_check::BuildChecker;
pub use clippy::ClippyChecker;
pub use custom::CustomChecker;
pub use fmt::FmtChecker;
pub use test::TestChecker;

use crate::config::{cargo_program, opt_text, Config};
use crate::text::{
    texts, char_rows, chars_of, contains_chars, has_infix, lines, owned, push_str, split_lines,
    string_of,
};
use std::time::Duration;
use vstd::prelude::*;

verus! {

/// The outcome of one check.
#[derive(Debug, Clone, Copy, PartialEq, Eq, Structural)]
pub enum CheckStatus {
    Passed,
    Failed,
    Skipped,
}

/// What one check found.
#[derive(Debug)]
pub struct CheckResult {
    pub name: String,
    pub status: CheckStatus,
    pub duration: Duration,
    pub output: String,
    pub errors: Vec<String>,
}

/// A command to start: the program, its arguments and, when the check has
/// one, its time limit in seconds.
#[derive(Debug)]
pub struct CommandSpec {
    pub program: String,
    pub args: Vec<String>,
    pub timeout_secs: Option<u64>,
}

/// A quality check.
pub trait Checker {
    /// The check's name.
    fn name(&self) -> &str;

    /// The command that performs the check under `config`.
    fn command(&self, config: &Config) -> CommandSpec;

    /// The result of the check, from whether its command succeeded, what
    /// it wrote to standard output and standard error, and how long it ran.
    fn check_result(&self, success: bool, stdout: &[u8], stderr: &[u8], duration: Duration)
        -> CheckResult;
}

/// A command's description as plain values: program, arguments, time limit.
pub open spec fn command_view(c: CommandSpec) -> (Seq<char>, Seq<Seq<char>>, Option<u64>) {
    (c.program@, texts(c.args@), c.timeout_secs)
}

/// The status of a check whose command succeeded or not.
pub open spec fn status_of(success: bool) -> CheckStatus {
    if success {
        CheckStatus::Passed
    } else {
        CheckStatus::Failed
    }
}

/// The text that `String::from_utf8_lossy` makes of `bytes`: the decoded
/// characters, each invalid sequence replaced by U+FFFD.
pub uninterp spec fn utf8_lossy(bytes: Seq<u8>) -> Seq<char>;

/// `String::from_utf8_lossy`, turned into an owned string.  Valid UTF-8 is
/// decoded as it is.
#[verifier::external_body]
fn decode_lossy(bytes: &[u8]) -> (s: String)
    ensures
        s@ == utf8_lossy(bytes@),
        vstd::utf8::valid_utf8(bytes@) ==> s@ == vstd::utf8::decode_utf8(bytes@),
{
    String::from_utf8_lossy(bytes).into_owned()
}

/// The output text of a command: its standard output followed by its
/// standard error, each decoded leniently.
pub open spec fn output_text(stdout: Seq<u8>, stderr: Seq<u8>) -> Seq<char> {
    utf8_lossy(stdout) + utf8_lossy(stderr)
}

/// The output text of a command that wrote `stdout` and `stderr`.
pub fn combined_output(stdout: &[u8], stderr: &[u8]) -> (s: String)
    ensures
        s@ == output_text(stdout@, stderr@),
        vstd::utf8::valid_utf8(stdout@) && vstd::utf8::valid_utf8(stderr@) ==> s@
            == vstd::utf8::decode_utf8(stdout@) + vstd::utf8::decode_utf8(stderr@),
{
    let mut s = decode_lossy(stdout);
    let e = decode_lossy(stderr);
    push_str(&mut s, e.as_str());
    s
}

/// `r` records a check named `name` whose command succeeded or not, ran for
/// `duration` and wrote `output`, with the error lines `errors`.
pub open spec fn result_is(
    r: CheckResult,
    name: Seq<char>,
    success: bool,
    duration: Duration,
    output: Seq<char>,
    errors: Seq<Seq<char>>,
) -> bool {
    &&& r.name@ == name
    &&& r.status == status_of(success)
    &&& r.duration == duration
    &&& r.output@ == output
    &&& texts(r.errors@) == errors
}

/// A check result from its parts.
pub fn make_result(
    name: &str,
    success: bool,
    duration: Duration,
    output: String,
    errors: Vec<String>,
) -> (r: CheckResult)
    ensures
        result_is(r, name@, success, duration, output@, texts(errors@)),
{
    CheckResult {
        name: owned(name),
        status: if success {
            CheckStatus::Passed
        } else {
            CheckStatus::Failed
        },
        duration,
        output,
        errors,
    }
}

/// The error list of a failed check that reports one fixed message.
pub open spec fn single_error(success: bool, message: Seq<char>) -> Seq<Seq<char>> {
    if success {
        seq![]
    } else {
        seq![message]
    }
}

/// The errors of a check that reports one fixed message when it fails.
pub fn single_error_list(success: bool, message: &str) -> (v: Vec<String>)
    ensures
        texts(v@) == single_error(success, message@),
{
    let mut v: Vec<String> = Vec::new();
    if !success {
        v.push(owned(message));
        assert(texts(v@) =~= seq![message@]);
    } else {
        assert(texts(v@) =~= Seq::<Seq<char>>::empty());
    }
    v
}

// ---------------------------------------------------------------------------
// Picking lines out of a command's output
// ---------------------------------------------------------------------------

/// Line `l` is picked: it mentions `a` or `b`.
pub open spec fn picked(l: Seq<char>, a: Seq<char>, b: Seq<char>) -> bool {
    has_infix(l, a) || has_infix(l, b)
}

/// The lines of `ls` that are picked, in order.
pub open spec fn picked_lines(ls: Seq<Seq<char>>, a: Seq<char>, b: Seq<char>) -> Seq<Seq<char>>
    decreases ls.len(),
{
    if ls.len() == 0 {
        seq![]
    } else {
        let r = picked_lines(ls.drop_last(), a, b);
        if picked(ls.last(), a, b) {
            r.push(ls.last())
        } else {
            r
        }
    }
}

/// The first `n` elements of `s` (all of them when it has fewer).
pub open spec fn first_n<A>(s: Seq<A>, n: nat) -> Seq<A> {
    if s.len() <= n {
        s
    } else {
        s.take(n as int)
    }
}

/// The first `max` lines of `ls` that are picked.
pub fn pick_lines(ls: &Vec<Vec<char>>, a: &[char], b: &[char], max: usize) -> (r: Vec<Vec<char>>)
    ensures
        char_rows(r@) == first_n(picked_lines(char_rows(ls@), a@, b@), max as nat),
{
    let ghost all = char_rows(ls@);
    let mut r: Vec<Vec<char>> = Vec::new();
    let mut i: usize = 0;
    assert(all.take(0) =~= Seq::<Seq<char>>::empty());
    while i < ls.len()
        invariant
            all == char_rows(ls@),
            i <= ls@.len(),
            char_rows(r@) == first_n(picked_lines(all.take(i as int), a@, b@), max as nat),
        decreases ls@.len() - i,
    {
        let line = &ls[i];
        let hit = contains_chars(line.as_slice(), a) || contains_chars(line.as_slice(), b);
        proof {
            assert(all.take(i + 1).drop_last() =~= all.take(i as int));
            assert(all.take(i + 1).last() == line@);
        }
        if hit && r.len() < max {
            let copy = string_of_chars(line);
            proof {
                assert(char_rows(r@.push(copy)) =~= char_rows(r@).push(copy@));
            }
            r.push(copy);
        }
        i = i + 1;
    }
    assert(all.take(ls@.len() as int) =~= all);
    r
}

/// A copy of a character vector.
fn string_of_chars(v: &Vec<char>) -> (r: Vec<char>)
    ensures
        r@ == v@,
{
    let mut r: Vec<char> = Vec::new();
    let mut i: usize = 0;
    while i < v.len()
        invariant
            i <= v@.len(),
            r@ == v@.take(i as int),
        decreases v@.len() - i,
    {
        r.push(v[i]);
        assert(v@.take(i + 1) == v@.take(i as int).push(v@[i as int]));
        i = i + 1;
    }
    assert(v@.take(v@.len() as int) == v@);
    r
}

/// The strings of the character vectors in `v`.
pub fn rows_to_strings(v: &Vec<Vec<char>>) -> (r: Vec<String>)
    ensures
        texts(r@) == char_rows(v@),
{
    let mut r: Vec<String> = Vec::new();
    let mut i: usize = 0;
    while i < v.len()
        invariant
            i <= v@.len(),
            texts(r@) == char_rows(v@).take(i as int),
        decreases v@.len() - i,
    {
        let s = string_of(v[i].as_slice());
        proof {
            assert(texts(r@.push(s)) =~= texts(r@).push(s@));
            assert(char_rows(v@).take(i + 1) =~= char_rows(v@).take(i as int).push(v@[i as int]@));
        }
        r.push(s);
        i = i + 1;
    }
    assert(char_rows(v@).take(v@.len() as int) =~= char_rows(v@));
    r
}

/// The error list of a failed check that reports the first `max` output
/// lines that mention `a` or `b`, or the fixed `fallback` when there is
/// none.
pub open spec fn picked_errors(
    success: bool,
    output: Seq<char>,
    a: Seq<char>,
    b: Seq<char>,
    max: nat,
    fallback: Seq<char>,
) -> Seq<Seq<char>> {
    let found = first_n(picked_lines(lines(output), a, b), max);
    if success {
        seq![]
    } else if found.len() == 0 {
        seq![fallback]
    } else {
        found
    }
}

/// The errors that a check reports, as `picked_errors` describes them.
pub fn picked_error_list(
    success: bool,
    output: &String,
    a: &str,
    b: &str,
    max: usize,
    fallback: &str,
) -> (v: Vec<String>)
    ensures
        texts(v@) == picked_errors(success, output@, a@, b@, max as nat, fallback@),
{
    if success {
        let v: Vec<String> = Vec::new();
        assert(texts(v@) =~= Seq::<Seq<char>>::empty());
        return v;
    }
    let chars = chars_of(output.as_str());
    let ls = split_lines(chars.as_slice());
    let av = chars_of(a);
    let bv = chars_of(b);
    let found = pick_lines(&ls, av.as_slice(), bv.as_slice(), max);
    if found.len() == 0 {
        let mut v: Vec<String> = Vec::new();
        v.push(owned(fallback));
        assert(texts(v@) =~= seq![fallback@]);
        v
    } else {
        rows_to_strings(&found)
    }
}

// ---------------------------------------------------------------------------
// Command arguments
// ---------------------------------------------------------------------------

/// `args` followed by `--manifest-path <path>` when a path is given.
pub open spec fn with_manifest(args: Seq<Seq<char>>, path: Option<Seq<char>>) -> Seq<Seq<char>> {
    match path {
        Some(p) => args + seq!["--manifest-path"@, p],
        None => args,
    }
}

/// `args` followed by `flag` when `on`.
pub open spec fn with_flag(args: Seq<Seq<char>>, on: bool, flag: Seq<char>) -> Seq<Seq<char>> {
    if on {
        args.push(flag)
    } else {
        args
    }
}

/// Appends `arg` to `args`.
pub fn push_arg(args: &mut Vec<String>, arg: &str)
    ensures
        texts(final(args)@) == texts(old(args)@).push(arg@),
{
    let ghost before = args@;
    args.push(owned(arg));
    assert(texts(args@) =~= texts(before).push(arg@));
}

/// Appends `--manifest-path <path>` to `args` when `path` is given.
pub fn push_manifest(args: &mut Vec<String>, path: &Option<String>)
    ensures
        texts(final(args)@) == with_manifest(texts(old(args)@), opt_text(*path)),
{
    match path {
        Some(p) => {
            let ghost before = texts(args@);
            push_arg(args, "--manifest-path");
            push_arg(args, p.as_str());
            assert(texts(args@) =~= before + seq!["--manifest-path"@, p@]);
        },
        None => {},
    }
}

/// Appends the arguments `more` to `args`.
pub fn push_args(args: &mut Vec<String>, more: &Vec<String>)
    ensures
        texts(final(args)@) == texts(old(args)@) + texts(more@),
{
    let ghost start = texts(args@);
    let mut i: usize = 0;
    while i < more.len()
        invariant
            i <= more@.len(),
            texts(args@) == start + texts(more@.take(i as int)),
        decreases more@.len() - i,
    {
        push_arg(args, more[i].as_str());
        assert(texts(more@.take(i + 1)) =~= texts(more@.take(i as int)).push(more@[i as int]@));
        i = i + 1;
    }
    assert(more@.take(more@.len() as int) =~= more@);
}

/// A cargo command with the arguments `args`, limited to `timeout` seconds.
pub fn cargo_command(args: Vec<String>, timeout: u64) -> (c: CommandSpec)
    ensures
        command_view(c) == ("cargo"@, texts(args@), Some(timeout)),
{
    CommandSpec { program: owned(cargo_program()), args, timeout_secs: Some(timeout) }
}

} // verus!
